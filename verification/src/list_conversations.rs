use vstd::prelude::*;

use crate::chat::Chat;
use crate::conversation::Conversation;
use crate::get_conversation::ConversationEntryView;
use crate::id::ConversationId;
use crate::membership::MembershipRole;
use crate::page::{
    all_below, cursor_names_last, cut_cursor, cut_ids, lemma_cut_keeps_order,
    lemma_ordered_ids_are_distinct, page_size_accepted, strictly_descending,
};

verus! {

/// Default number of conversations requested in one page.
pub const DEFAULT_CONVERSATION_PAGE_SIZE: usize = 50;

/// Maximum number of conversations accepted in one page request.
pub const MAX_CONVERSATION_PAGE_SIZE: usize = 100;

/// The cursor and page size of a conversation query.
pub struct ListConversationsView {
    pub before: Option<i64>,
    pub limit: usize,
}

/// Requests a page of conversations older than an optional cursor.
#[derive(Clone, Copy, Debug, PartialEq, Eq, Structural)]
pub struct ListConversations {
    before: Option<ConversationId>,
    limit: usize,
}

impl View for ListConversations {
    type V = ListConversationsView;

    closed spec fn view(&self) -> ListConversationsView {
        ListConversationsView {
            before: match self.before {
                Some(id) => Some(id@),
                None => None,
            },
            limit: self.limit,
        }
    }
}

impl ListConversations {
    /// Creates a query using the default page size.
    pub fn new() -> (r: Self)
        ensures
            r@ == (ListConversationsView { before: None, limit: DEFAULT_CONVERSATION_PAGE_SIZE }),
    {
        ListConversations { before: None, limit: DEFAULT_CONVERSATION_PAGE_SIZE }
    }

    /// Sets the exclusive upper conversation-ID cursor.
    pub fn before(self, conversation_id: ConversationId) -> (r: Self)
        ensures
            r@ == (ListConversationsView { before: Some(conversation_id@), limit: self@.limit }),
    {
        ListConversations { before: Some(conversation_id), limit: self.limit }
    }

    /// Sets the requested page size.
    pub fn limit(self, limit: usize) -> (r: Self)
        ensures
            r@ == (ListConversationsView { before: self@.before, limit }),
    {
        ListConversations { before: self.before, limit }
    }

    /// Returns the exclusive upper cursor.
    pub fn before_conversation_id(self) -> (r: Option<ConversationId>)
        ensures
            r is Some <==> self@.before is Some,
            r matches Some(id) ==> self@.before == Some(id@),
    {
        self.before
    }

    /// Returns the requested page size.
    pub fn page_size(self) -> (r: usize)
        ensures
            r == self@.limit,
    {
        self.limit
    }
}

impl Default for ListConversations {
    fn default() -> (r: Self)
        ensures
            r@ == (ListConversationsView { before: None, limit: DEFAULT_CONVERSATION_PAGE_SIZE }),
    {
        ListConversations::new()
    }
}

/// A conversation entry visible to one user.
#[derive(Debug, PartialEq, Eq)]
pub struct ConversationSummary {
    conversation: Conversation,
    role: MembershipRole,
}

impl View for ConversationSummary {
    type V = ConversationEntryView;

    closed spec fn view(&self) -> ConversationEntryView {
        ConversationEntryView { conversation: self.conversation@, role: self.role }
    }
}

impl Clone for ConversationSummary {
    fn clone(&self) -> (r: Self)
        ensures
            r == *self,
    {
        ConversationSummary { conversation: self.conversation.clone(), role: self.role }
    }
}

impl ConversationSummary {
    /// Creates a summary returned by a read store.
    pub fn new(conversation: Conversation, role: MembershipRole) -> (r: Self)
        ensures
            r@ == (ConversationEntryView { conversation: conversation@, role }),
    {
        ConversationSummary { conversation, role }
    }

    /// Returns the conversation.
    pub fn conversation(&self) -> (r: &Conversation)
        ensures
            r@ == self@.conversation,
    {
        &self.conversation
    }

    /// Returns the user's role.
    pub fn role(&self) -> (r: MembershipRole)
        ensures
            r == self@.role,
    {
        self.role
    }
}

/// The entries and next-page cursor of a conversation page.
pub struct ConversationPageView {
    pub conversations: Seq<ConversationEntryView>,
    pub next_cursor: Option<i64>,
}

/// The conversation identifiers of a page, in page order.
pub open spec fn conversation_ids(entries: Seq<ConversationEntryView>) -> Seq<i64> {
    entries.map_values(|e: ConversationEntryView| e.conversation.id)
}

/// A page of conversations ordered from newest to oldest.
#[derive(Clone, Debug, PartialEq, Eq)]
pub struct ConversationPage {
    conversations: Vec<ConversationSummary>,
    next_cursor: Option<ConversationId>,
}

impl View for ConversationPage {
    type V = ConversationPageView;

    closed spec fn view(&self) -> ConversationPageView {
        ConversationPageView {
            conversations: self.conversations@.map_values(|s: ConversationSummary| s@),
            next_cursor: match self.next_cursor {
                Some(id) => Some(id@),
                None => None,
            },
        }
    }
}

impl ConversationPage {
    /// Creates a page returned by a read store.
    pub fn new(conversations: Vec<ConversationSummary>, next_cursor: Option<ConversationId>) -> (r:
        Self)
        ensures
            r@.conversations == conversations@.map_values(|s: ConversationSummary| s@),
            r@.next_cursor == (match next_cursor {
                Some(id) => Some(id@),
                None => None::<i64>,
            }),
    {
        ConversationPage { conversations, next_cursor }
    }

    /// Builds the page a store returns from rows read in page order, one row
    /// past the page size: the rows beyond `page_size` are dropped and, when
    /// any were, the last kept conversation becomes the next-page cursor.
    pub fn from_rows(rows: Vec<ConversationSummary>, page_size: usize) -> (r: Self)
        requires
            page_size >= 1,
        ensures
            conversation_ids(r@.conversations) == cut_ids(
                conversation_ids(rows@.map_values(|s: ConversationSummary| s@)),
                page_size,
            ),
            r@.conversations == (if rows@.len() > page_size {
                rows@.map_values(|s: ConversationSummary| s@).take(page_size as int)
            } else {
                rows@.map_values(|s: ConversationSummary| s@)
            }),
            r@.next_cursor == cut_cursor(
                conversation_ids(rows@.map_values(|s: ConversationSummary| s@)),
                page_size,
            ),
    {
        let mut rows = rows;
        let ghost all = rows@.map_values(|s: ConversationSummary| s@);
        let has_more = rows.len() > page_size;
        if has_more {
            rows.truncate(page_size);
        }
        let next_cursor = if has_more {
            Some(rows[page_size - 1].conversation().id())
        } else {
            None
        };
        let r = ConversationPage { conversations: rows, next_cursor };
        proof {
            if has_more {
                assert(r@.conversations =~= all.take(page_size as int));
                assert(conversation_ids(r@.conversations) =~= conversation_ids(all).take(
                    page_size as int,
                ));
            } else {
                assert(r@.conversations =~= all);
            }
        }
        r
    }

    /// Returns conversations ordered from newest to oldest.
    pub fn conversations(&self) -> (r: &[ConversationSummary])
        ensures
            r@.map_values(|s: ConversationSummary| s@) == self@.conversations,
    {
        self.conversations.as_slice()
    }

    /// Returns the cursor for the next older page, when one exists.
    pub fn next_cursor(&self) -> (r: Option<ConversationId>)
        ensures
            r is Some <==> self@.next_cursor is Some,
            r matches Some(id) ==> self@.next_cursor == Some(id@),
    {
        self.next_cursor
    }

    /// Consumes the page and returns its parts.
    pub fn into_parts(self) -> (r: (Vec<ConversationSummary>, Option<ConversationId>))
        ensures
            r.0@.map_values(|s: ConversationSummary| s@) == self@.conversations,
            r.1 is Some <==> self@.next_cursor is Some,
            r.1 matches Some(id) ==> self@.next_cursor == Some(id@),
    {
        (self.conversations, self.next_cursor)
    }
}

/// Describes why listing conversations failed.
#[derive(Clone, Copy, Debug, PartialEq, Eq, Structural)]
pub enum ListConversationsError {
    /// The requested page size is outside `1..=MAX_CONVERSATION_PAGE_SIZE`.
    InvalidPageSize {
        /// Rejected page size.
        value: usize,
        /// Maximum accepted page size.
        max: usize,
    },
    /// The store returned an invalid conversation page.
    InvalidStoreResult,
    /// Persistence was temporarily unavailable.
    StoreUnavailable,
}

/// Whether a conversation page answers `query`: it holds at most `limit`
/// entries, newest first with no repeats, all older than the query cursor,
/// and its next-page cursor, if any, names its last entry.
pub open spec fn conversation_page_valid(query: ListConversationsView, page: ConversationPageView) -> bool {
    let ids = conversation_ids(page.conversations);
    &&& ids.len() <= query.limit
    &&& strictly_descending(ids)
    &&& all_below(ids, query.before)
    &&& cursor_names_last(page.next_cursor, ids)
}

impl<S> Chat<S> {
    /// Checks the requested page size before the store is read.
    pub fn list_conversations_request(&self, query: ListConversations) -> (r: Result<
        (),
        ListConversationsError,
    >)
        ensures
            page_size_accepted(query@.limit, MAX_CONVERSATION_PAGE_SIZE) ==> r is Ok,
            !page_size_accepted(query@.limit, MAX_CONVERSATION_PAGE_SIZE) ==> r == Err::<
                (),
                ListConversationsError,
            >(
                ListConversationsError::InvalidPageSize {
                    value: query@.limit,
                    max: MAX_CONVERSATION_PAGE_SIZE,
                },
            ),
    {
        if query.limit < 1 || query.limit > MAX_CONVERSATION_PAGE_SIZE {
            return Err(
                ListConversationsError::InvalidPageSize {
                    value: query.limit,
                    max: MAX_CONVERSATION_PAGE_SIZE,
                },
            );
        }
        Ok(())
    }

    /// Checks what the store answered: a store error is passed on, a page that
    /// does not answer the query is an invalid store result, and a valid page
    /// is returned unchanged.
    pub fn list_conversations_outcome(
        &self,
        query: ListConversations,
        stored: Result<ConversationPage, ListConversationsError>,
    ) -> (r: Result<ConversationPage, ListConversationsError>)
        ensures
            match stored {
                Err(e) => r == Err::<ConversationPage, ListConversationsError>(e),
                Ok(p) => if conversation_page_valid(query@, p@) {
                    r == Ok::<ConversationPage, ListConversationsError>(p)
                } else {
                    r == Err::<ConversationPage, ListConversationsError>(
                        ListConversationsError::InvalidStoreResult,
                    )
                },
            },
    {
        let page = match stored {
            Ok(p) => p,
            Err(e) => return Err(e),
        };
        if conversation_page_matches(query, &page) {
            Ok(page)
        } else {
            Err(ListConversationsError::InvalidStoreResult)
        }
    }
}

/// Decides whether `page` answers `query`.
pub fn conversation_page_matches(query: ListConversations, page: &ConversationPage) -> (r: bool)
    ensures
        r == conversation_page_valid(query@, page@),
{
    let entries = &page.conversations;
    let ghost ids = conversation_ids(page@.conversations);
    let n = entries.len();
    assert(ids.len() == n);
    if n > query.limit {
        return false;
    }
    let mut i: usize = 0;
    while i < n
        invariant
            n == entries@.len(),
            ids == conversation_ids(page@.conversations),
            page@.conversations == entries@.map_values(|s: ConversationSummary| s@),
            ids.len() == n,
            i <= n,
            strictly_descending(ids.take(i as int)),
            all_below(ids.take(i as int), query@.before),
        decreases n - i,
    {
        let id = entries[i].conversation().id().get();
        assert(id == ids[i as int]);
        if i > 0 {
            let previous = entries[i - 1].conversation().id().get();
            assert(previous == ids[i - 1]);
            if previous <= id {
                assert(!strictly_descending(ids));
                return false;
            }
        }
        match query.before {
            Some(cursor) => {
                if id >= cursor.get() {
                    assert(!all_below(ids, query@.before));
                    return false;
                }
            },
            None => {},
        }
        proof {
            let t = ids.take(i + 1);
            assert forall|a: int, b: int| 0 <= a < b < t.len() implies t[a] > t[b] by {
                assert(t[a] == ids[a] && t[b] == ids[b]);
                if b < i {
                    assert(ids.take(i as int)[a] > ids.take(i as int)[b]);
                } else if a < i - 1 {
                    assert(ids.take(i as int)[a] > ids.take(i as int)[i - 1]);
                }
            }
            if query@.before is Some {
                assert forall|a: int| 0 <= a < t.len() implies t[a] < query@.before->0 by {
                    if a < i {
                        assert(ids.take(i as int)[a] == t[a]);
                    }
                }
            }
        }
        i = i + 1;
    }
    assert(ids.take(n as int) =~= ids);
    match page.next_cursor {
        None => true,
        Some(cursor) => {
            if n == 0 {
                return false;
            }
            let last = entries[n - 1].conversation().id().get();
            assert(last == ids.last());
            cursor.get() == last
        },
    }
}

/// A page cut from rows that the store read newest first and below the query
/// cursor, at the query's accepted page size, answers the query.
pub proof fn lemma_cut_conversation_page_is_valid(
    query: ListConversationsView,
    rows: Seq<ConversationEntryView>,
    page: ConversationPageView,
)
    requires
        page_size_accepted(query.limit, MAX_CONVERSATION_PAGE_SIZE),
        strictly_descending(conversation_ids(rows)),
        all_below(conversation_ids(rows), query.before),
        conversation_ids(page.conversations) == cut_ids(conversation_ids(rows), query.limit),
        page.next_cursor == cut_cursor(conversation_ids(rows), query.limit),
    ensures
        conversation_page_valid(query, page),
{
    lemma_cut_keeps_order(conversation_ids(rows), query.limit);
    lemma_ordered_ids_are_distinct(conversation_ids(page.conversations));
}

} // verus!
