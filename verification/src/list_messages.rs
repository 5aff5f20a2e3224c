use vstd::prelude::*;

use crate::chat::Chat;
use crate::id::{ConversationId, MessageId};
use crate::message::{Message, MessageView};
use crate::page::{
    all_below, cursor_names_last, cut_cursor, cut_ids, lemma_cut_keeps_order, page_size_accepted,
    strictly_descending,
};

verus! {

/// Default number of messages requested in one page.
pub const DEFAULT_MESSAGE_PAGE_SIZE: usize = 50;

/// Maximum number of messages accepted in one page request.
pub const MAX_MESSAGE_PAGE_SIZE: usize = 100;

/// The conversation, cursor and page size of a message query.
pub struct ListMessagesView {
    pub conversation_id: i64,
    pub before: Option<i64>,
    pub limit: usize,
}

/// Requests a page of messages older than an optional cursor.
#[derive(Clone, Copy, Debug, PartialEq, Eq, Structural)]
pub struct ListMessages {
    conversation_id: ConversationId,
    before: Option<MessageId>,
    limit: usize,
}

impl View for ListMessages {
    type V = ListMessagesView;

    closed spec fn view(&self) -> ListMessagesView {
        ListMessagesView {
            conversation_id: self.conversation_id@,
            before: match self.before {
                Some(id) => Some(id@),
                None => None,
            },
            limit: self.limit,
        }
    }
}

impl ListMessages {
    /// Creates a query using the default page size.
    pub fn new(conversation_id: ConversationId) -> (r: Self)
        ensures
            r@ == (ListMessagesView {
                conversation_id: conversation_id@,
                before: None,
                limit: DEFAULT_MESSAGE_PAGE_SIZE,
            }),
    {
        ListMessages { conversation_id, before: None, limit: DEFAULT_MESSAGE_PAGE_SIZE }
    }

    /// Sets the exclusive upper message-ID cursor.
    pub fn before(self, message_id: MessageId) -> (r: Self)
        ensures
            r@ == (ListMessagesView {
                conversation_id: self@.conversation_id,
                before: Some(message_id@),
                limit: self@.limit,
            }),
    {
        ListMessages {
            conversation_id: self.conversation_id,
            before: Some(message_id),
            limit: self.limit,
        }
    }

    /// Sets the requested page size.
    pub fn limit(self, limit: usize) -> (r: Self)
        ensures
            r@ == (ListMessagesView {
                conversation_id: self@.conversation_id,
                before: self@.before,
                limit,
            }),
    {
        ListMessages { conversation_id: self.conversation_id, before: self.before, limit }
    }

    /// Returns the target conversation.
    pub fn conversation_id(self) -> (r: ConversationId)
        ensures
            r@ == self@.conversation_id,
    {
        self.conversation_id
    }

    /// Returns the exclusive upper cursor.
    pub fn before_message_id(self) -> (r: Option<MessageId>)
        ensures
            r is Some <==> self@.before is Some,
            r matches Some(id) ==> self@.before == Some(id@),
    {
        self.before
    }

    /// Returns the requested page size.
    pub fn page_size(self) -> (r: usize)
        ensures
            r == self@.limit,
    {
        self.limit
    }
}

/// The messages and next-page cursor of a message page.
pub struct MessagePageView {
    pub messages: Seq<MessageView>,
    pub next_cursor: Option<i64>,
}

/// The message identifiers of a page, in page order.
pub open spec fn message_ids(messages: Seq<MessageView>) -> Seq<i64> {
    messages.map_values(|m: MessageView| m.id)
}

/// A page of messages ordered from newest to oldest.
#[derive(Clone, Debug, PartialEq, Eq)]
pub struct MessagePage {
    messages: Vec<Message>,
    next_cursor: Option<MessageId>,
}

impl View for MessagePage {
    type V = MessagePageView;

    closed spec fn view(&self) -> MessagePageView {
        MessagePageView {
            messages: self.messages@.map_values(|m: Message| m@),
            next_cursor: match self.next_cursor {
                Some(id) => Some(id@),
                None => None,
            },
        }
    }
}

impl MessagePage {
    /// Creates a page returned by a read store.
    pub fn new(messages: Vec<Message>, next_cursor: Option<MessageId>) -> (r: Self)
        ensures
            r@.messages == messages@.map_values(|m: Message| m@),
            r@.next_cursor == (match next_cursor {
                Some(id) => Some(id@),
                None => None::<i64>,
            }),
    {
        MessagePage { messages, next_cursor }
    }

    /// Builds the page a store returns from rows read in page order, one row
    /// past the page size: the rows beyond `page_size` are dropped and, when
    /// any were, the last kept message becomes the next-page cursor.
    pub fn from_rows(rows: Vec<Message>, page_size: usize) -> (r: Self)
        requires
            page_size >= 1,
        ensures
            r@.messages == (if rows@.len() > page_size {
                rows@.map_values(|m: Message| m@).take(page_size as int)
            } else {
                rows@.map_values(|m: Message| m@)
            }),
            r@.next_cursor == cut_cursor(message_ids(rows@.map_values(|m: Message| m@)), page_size),
    {
        let mut rows = rows;
        let ghost all = rows@.map_values(|m: Message| m@);
        let has_more = rows.len() > page_size;
        if has_more {
            rows.truncate(page_size);
        }
        let next_cursor = if has_more {
            Some(rows[page_size - 1].id())
        } else {
            None
        };
        let r = MessagePage { messages: rows, next_cursor };
        proof {
            if has_more {
                assert(r@.messages =~= all.take(page_size as int));
            } else {
                assert(r@.messages =~= all);
            }
        }
        r
    }

    /// Returns messages ordered from newest to oldest.
    pub fn messages(&self) -> (r: &[Message])
        ensures
            r@.map_values(|m: Message| m@) == self@.messages,
    {
        self.messages.as_slice()
    }

    /// Returns the cursor for the next older page, when one exists.
    pub fn next_cursor(&self) -> (r: Option<MessageId>)
        ensures
            r is Some <==> self@.next_cursor is Some,
            r matches Some(id) ==> self@.next_cursor == Some(id@),
    {
        self.next_cursor
    }

    /// Consumes the page and returns its parts.
    pub fn into_parts(self) -> (r: (Vec<Message>, Option<MessageId>))
        ensures
            r.0@.map_values(|m: Message| m@) == self@.messages,
            r.1 is Some <==> self@.next_cursor is Some,
            r.1 matches Some(id) ==> self@.next_cursor == Some(id@),
    {
        (self.messages, self.next_cursor)
    }
}

/// Describes why listing messages failed.
#[derive(Clone, Copy, Debug, PartialEq, Eq, Structural)]
pub enum ListMessagesError {
    /// The requested page size is outside `1..=MAX_MESSAGE_PAGE_SIZE`.
    InvalidPageSize {
        /// Rejected page size.
        value: usize,
        /// Maximum accepted page size.
        max: usize,
    },
    /// The conversation does not exist or is not visible to the actor.
    NotFound,
    /// The store returned a page inconsistent with the request.
    InvalidStoreResult,
    /// Persistence was temporarily unavailable.
    StoreUnavailable,
}

/// Every message of the page belongs to `conversation_id`.
pub open spec fn all_messages_in(messages: Seq<MessageView>, conversation_id: i64) -> bool {
    forall|i: int| 0 <= i < messages.len() ==> #[trigger] messages[i].conversation_id == conversation_id
}

/// Whether a message page answers `query`: at most `limit` messages of the
/// queried conversation, newest first, all older than the query cursor, and a
/// next-page cursor that, if any, names the last message.
pub open spec fn message_page_valid(query: ListMessagesView, page: MessagePageView) -> bool {
    let ids = message_ids(page.messages);
    &&& ids.len() <= query.limit
    &&& all_messages_in(page.messages, query.conversation_id)
    &&& strictly_descending(ids)
    &&& all_below(ids, query.before)
    &&& cursor_names_last(page.next_cursor, ids)
}

impl<S> Chat<S> {
    /// Checks the requested page size before the store is read.
    pub fn list_messages_request(&self, query: ListMessages) -> (r: Result<(), ListMessagesError>)
        ensures
            page_size_accepted(query@.limit, MAX_MESSAGE_PAGE_SIZE) ==> r is Ok,
            !page_size_accepted(query@.limit, MAX_MESSAGE_PAGE_SIZE) ==> r == Err::<
                (),
                ListMessagesError,
            >(ListMessagesError::InvalidPageSize { value: query@.limit, max: MAX_MESSAGE_PAGE_SIZE }),
    {
        if query.limit < 1 || query.limit > MAX_MESSAGE_PAGE_SIZE {
            return Err(
                ListMessagesError::InvalidPageSize { value: query.limit, max: MAX_MESSAGE_PAGE_SIZE },
            );
        }
        Ok(())
    }

    /// Checks what the store answered: a store error is passed on, a page that
    /// does not answer the query is an invalid store result, and a valid page
    /// is returned unchanged.
    pub fn list_messages_outcome(&self, query: ListMessages, stored: Result<MessagePage, ListMessagesError>) -> (r:
        Result<MessagePage, ListMessagesError>)
        ensures
            match stored {
                Err(e) => r == Err::<MessagePage, ListMessagesError>(e),
                Ok(p) => if message_page_valid(query@, p@) {
                    r == Ok::<MessagePage, ListMessagesError>(p)
                } else {
                    r == Err::<MessagePage, ListMessagesError>(ListMessagesError::InvalidStoreResult)
                },
            },
    {
        let page = match stored {
            Ok(p) => p,
            Err(e) => return Err(e),
        };
        if message_page_matches(query, &page) {
            Ok(page)
        } else {
            Err(ListMessagesError::InvalidStoreResult)
        }
    }
}

/// Decides whether `page` answers `query`.
pub fn message_page_matches(query: ListMessages, page: &MessagePage) -> (r: bool)
    ensures
        r == message_page_valid(query@, page@),
{
    let entries = &page.messages;
    let ghost messages = page@.messages;
    let ghost ids = message_ids(messages);
    let n = entries.len();
    if n > query.limit {
        return false;
    }
    let mut i: usize = 0;
    while i < n
        invariant
            n == entries@.len(),
            messages == entries@.map_values(|m: Message| m@),
            page@.messages == messages,
            ids == message_ids(messages),
            ids.len() == n,
            i <= n,
            all_messages_in(messages.take(i as int), query@.conversation_id),
            strictly_descending(ids.take(i as int)),
            all_below(ids.take(i as int), query@.before),
        decreases n - i,
    {
        let id = entries[i].id().get();
        assert(id == ids[i as int]);
        if entries[i].conversation_id().get() != query.conversation_id.get() {
            assert(messages[i as int].conversation_id != query@.conversation_id);
            return false;
        }
        if i > 0 {
            let previous = entries[i - 1].id().get();
            assert(previous == ids[i - 1]);
            if previous <= id {
                assert(!strictly_descending(ids));
                return false;
            }
        }
        match query.before {
            Some(cursor) => {
                if id >= cursor.get() {
                    assert(!all_below(ids, query@.before));
                    return false;
                }
            },
            None => {},
        }
        proof {
            let t = ids.take(i + 1);
            assert forall|a: int, b: int| 0 <= a < b < t.len() implies t[a] > t[b] by {
                assert(t[a] == ids[a] && t[b] == ids[b]);
                if b < i {
                    assert(ids.take(i as int)[a] > ids.take(i as int)[b]);
                } else if a < i - 1 {
                    assert(ids.take(i as int)[a] > ids.take(i as int)[i - 1]);
                }
            }
            if query@.before is Some {
                assert forall|a: int| 0 <= a < t.len() implies t[a] < query@.before->0 by {
                    if a < i {
                        assert(ids.take(i as int)[a] == t[a]);
                    }
                }
            }
            let mt = messages.take(i + 1);
            assert forall|a: int| 0 <= a < mt.len() implies #[trigger] mt[a].conversation_id
                == query@.conversation_id by {
                if a < i {
                    assert(messages.take(i as int)[a] == mt[a]);
                }
            }
        }
        i = i + 1;
    }
    assert(ids.take(n as int) =~= ids);
    assert(messages.take(n as int) =~= messages);
    match page.next_cursor {
        None => true,
        Some(cursor) => {
            if n == 0 {
                return false;
            }
            let last = entries[n - 1].id().get();
            assert(last == ids.last());
            cursor.get() == last
        },
    }
}

/// A page cut from message rows that the store read newest first, below the
/// query cursor and within the queried conversation, at the query's accepted
/// page size, answers the query.
pub proof fn lemma_cut_message_page_is_valid(
    query: ListMessagesView,
    rows: Seq<MessageView>,
    page: MessagePageView,
)
    requires
        page_size_accepted(query.limit, MAX_MESSAGE_PAGE_SIZE),
        strictly_descending(message_ids(rows)),
        all_below(message_ids(rows), query.before),
        all_messages_in(rows, query.conversation_id),
        page.messages == (if rows.len() > query.limit {
            rows.take(query.limit as int)
        } else {
            rows
        }),
        page.next_cursor == cut_cursor(message_ids(rows), query.limit),
    ensures
        message_page_valid(query, page),
{
    let ids = message_ids(rows);
    if rows.len() > query.limit {
        assert(message_ids(page.messages) =~= ids.take(query.limit as int));
        assert forall|i: int| 0 <= i < page.messages.len() implies #[trigger] page.messages[i].conversation_id
            == query.conversation_id by {
            assert(page.messages[i] == rows[i]);
        }
    }
    assert(message_ids(page.messages) == cut_ids(ids, query.limit));
    lemma_cut_keeps_order(ids, query.limit);
}

} // verus!
