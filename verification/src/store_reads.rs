use std::time::SystemTime;

use vstd::prelude::*;

use crate::get_conversation::{ConversationDetails, GetConversationError};
use crate::list_conversations::{ConversationPage, ConversationSummary, ListConversationsError};
use crate::list_members::{ConversationMember, ListMembersError, MemberPage};
use crate::list_messages::{ListMessagesError, MessagePage};
use crate::message::Message;
use crate::time::millis_since_unix_epoch;
use crate::row::{
    entry_of, stored_time, system_time_from_millis, conversation_read_as, conversation_row_fits, membership_read_as, message_read_as, role_named,
    user_read_as, ConversationWithRoleRow, OptionalConversationMemberRow, OptionalMessageRow,
};

verus! {

/// Whether a conversation row with the reader's role fits the domain rules.
pub open spec fn role_row_fits(row: ConversationWithRoleRow) -> bool {
    conversation_row_fits(row.id, row.title@, row.created_at_ms) && role_named(row.role@) is Some
}

/// The conversation read for a reader: no row means the conversation does
/// not exist or is not visible to the reader; a row that breaks the domain
/// rules is an invalid store result. The row's timestamp is read first; the
/// rest is decided by `ConversationWithRoleRow::details_at`, which succeeds
/// on every row whose other values fit.
pub fn details_from_row(row: Option<ConversationWithRoleRow>) -> (r: Result<
    ConversationDetails,
    GetConversationError,
>)
    ensures
        row is None ==> r == Err::<ConversationDetails, GetConversationError>(
            GetConversationError::NotFound,
        ),
        (row matches Some(w) && !role_row_fits(w)) ==> r == Err::<
            ConversationDetails,
            GetConversationError,
        >(GetConversationError::InvalidStoreResult),
        r matches Ok(d) ==> (row matches Some(w) && role_row_fits(w) && conversation_read_as(
            d@.conversation,
            w.id,
            w.title@,
            w.created_at_ms,
        ) && role_named(w.role@) == Some(d@.role)),
        r is Err ==> (r == Err::<ConversationDetails, GetConversationError>(
            GetConversationError::NotFound,
        ) || r == Err::<ConversationDetails, GetConversationError>(
            GetConversationError::InvalidStoreResult,
        )),
{
    match row {
        None => Err(GetConversationError::NotFound),
        Some(row) => match system_time_from_millis(row.created_at_ms) {
            Err(_) => Err(GetConversationError::InvalidStoreResult),
            Ok(created_at) => match row.details_at(created_at) {
                Ok(d) => Ok(d),
                Err(_) => Err(GetConversationError::InvalidStoreResult),
            },
        },
    }
}

/// The summary a fitting row reads as.
pub open spec fn summary_read_as(s: crate::get_conversation::ConversationEntryView, row: ConversationWithRoleRow) -> bool {
    &&& conversation_read_as(s.conversation, row.id, row.title@, row.created_at_ms)
    &&& role_named(row.role@) == Some(s.role)
}

/// A conversation page read from `rows` with `page_size`: the first
/// `page_size` rows, each read as its summary, and a cursor at the last kept
/// row when more rows were read.
pub open spec fn conversation_page_reads(
    page: crate::list_conversations::ConversationPageView,
    rows: Seq<ConversationWithRoleRow>,
    page_size: usize,
) -> bool {
    &&& page.conversations.len() == kept(rows.len(), page_size)
    &&& forall|i: int|
        0 <= i < page.conversations.len() ==> #[trigger] summary_read_as(page.conversations[i], rows[i])
    &&& page.next_cursor == (if rows.len() > page_size {
        Some(rows[page_size - 1].id)
    } else {
        None
    })
}

/// The size of a page cut from `n` rows.
pub open spec fn kept(n: nat, page_size: usize) -> nat {
    if n > page_size {
        page_size as nat
    } else {
        n
    }
}

/// A conversation row together with its timestamp as read, if it could be
/// read, fits: its other values fit and the timestamp was read.
pub open spec fn timed_row_fits(p: (ConversationWithRoleRow, Option<SystemTime>)) -> bool {
    p.0.parts_fit() && p.1 is Some
}

/// A conversation page read from rows whose timestamps were already read:
/// the first `page_size` rows, each as its entry, and a cursor at the last
/// kept row when more rows were read.
pub open spec fn conversation_page_at(
    page: crate::list_conversations::ConversationPageView,
    rows: Seq<(ConversationWithRoleRow, Option<SystemTime>)>,
    page_size: usize,
) -> bool {
    &&& page.conversations.len() == kept(rows.len(), page_size)
    &&& forall|i: int|
        0 <= i < page.conversations.len() ==> #[trigger] page.conversations[i] == entry_of(
            rows[i].0,
            rows[i].1->0,
        )
    &&& page.next_cursor == (if rows.len() > page_size {
        Some(rows[page_size - 1].0.id)
    } else {
        None
    })
}

/// Builds a conversation page from rows read newest first, one past the
/// page size, each with its timestamp already read (`None` where it could
/// not be): the page exists exactly when every row fits; it keeps the first
/// `page_size` rows and points past the last kept one when more rows were
/// read.
pub fn conversation_page_from_read_rows(
    rows: Vec<(ConversationWithRoleRow, Option<SystemTime>)>,
    page_size: usize,
) -> (r: Result<ConversationPage, ListConversationsError>)
    requires
        page_size >= 1,
    ensures
        r is Ok <==> forall|i: int| 0 <= i < rows@.len() ==> timed_row_fits(#[trigger] rows@[i]),
        r is Err ==> r == Err::<ConversationPage, ListConversationsError>(
            ListConversationsError::InvalidStoreResult,
        ),
        r matches Ok(p) ==> conversation_page_at(p@, rows@, page_size),
{
    let ghost read_rows = rows@;
    let mut summaries: Vec<ConversationSummary> = Vec::new();
    for pair in it: rows.into_iter()
        invariant
            read_rows == it.seq(),
            read_rows == rows@,
            summaries@.len() == it.index(),
            forall|j: int| 0 <= j < it.index() ==> #[trigger] timed_row_fits(read_rows[j]),
            forall|j: int|
                0 <= j < summaries@.len() ==> #[trigger] summaries@[j]@ == entry_of(
                    read_rows[j].0,
                    read_rows[j].1->0,
                ),
    {
        let ghost k = summaries@.len() as int;
        assert(pair == read_rows[k]);
        let (row, created_at) = pair;
        let created_at = match created_at {
            Some(t) => t,
            None => {
                assert(!timed_row_fits(rows@[k]));
                return Err(ListConversationsError::InvalidStoreResult);
            },
        };
        match row.summary_at(created_at) {
            Ok(s) => {
                let ghost before = summaries@;
                summaries.push(s);
                assert forall|j: int| 0 <= j < summaries@.len() implies #[trigger] summaries@[j]@
                    == entry_of(read_rows[j].0, read_rows[j].1->0) by {
                    if j < k {
                        assert(summaries@[j] == before[j]);
                    }
                }
            },
            Err(_) => {
                assert(!timed_row_fits(rows@[k]));
                return Err(ListConversationsError::InvalidStoreResult);
            },
        }
    }
    let ghost views = summaries@.map_values(|s: ConversationSummary| s@);
    assert(summaries@.len() == read_rows.len());
    let page = ConversationPage::from_rows(summaries, page_size);
    proof {
        assert forall|i: int| 0 <= i < page@.conversations.len() implies #[trigger] page@.conversations[i]
            == entry_of(rows@[i].0, rows@[i].1->0) by {
            assert(page@.conversations[i] == views[i]);
        }
        if read_rows.len() > page_size {
            assert(views[page_size - 1] == entry_of(read_rows[page_size - 1].0, read_rows[page_size - 1].1->0));
            assert(crate::list_conversations::conversation_ids(views)[page_size - 1]
                == views[page_size - 1].conversation.id);
        }
    }
    Ok(page)
}

/// Builds a conversation page from rows read newest first, one past the
/// page size: every row must fit the domain rules (else the page is an
/// invalid store result); the page keeps the first `page_size` rows and
/// points past the last kept one when more rows were read. Each row's
/// timestamp is read here; the rest is decided by
/// `conversation_page_from_read_rows`.
pub fn conversation_page_from_rows(rows: Vec<ConversationWithRoleRow>, page_size: usize) -> (r: Result<
    ConversationPage,
    ListConversationsError,
>)
    requires
        page_size >= 1,
    ensures
        (exists|i: int| 0 <= i < rows@.len() && !role_row_fits(#[trigger] rows@[i])) ==> r is Err,
        rows@.len() == 0 ==> r is Ok,
        r is Err ==> r == Err::<ConversationPage, ListConversationsError>(
            ListConversationsError::InvalidStoreResult,
        ),
        r matches Ok(p) ==> conversation_page_reads(p@, rows@, page_size),
{
    let ghost read_rows = rows@;
    let mut timed: Vec<(ConversationWithRoleRow, Option<SystemTime>)> = Vec::new();
    for row in it: rows.into_iter()
        invariant
            read_rows == it.seq(),
            timed@.len() == it.index(),
            forall|j: int|
                0 <= j < timed@.len() ==> (#[trigger] timed@[j]).0 == read_rows[j] && (timed@[j].1 matches Some(t)
                    ==> read_rows[j].created_at_ms >= 0 && millis_since_unix_epoch(t) == Some(
                    read_rows[j].created_at_ms as int,
                )) && (read_rows[j].created_at_ms < 0 ==> timed@[j].1 is None),
    {
        let created_at = match system_time_from_millis(row.created_at_ms) {
            Ok(t) => Some(t),
            Err(_) => None,
        };
        let ghost before = timed@;
        timed.push((row, created_at));
        assert forall|j: int| 0 <= j < timed@.len() - 1 implies timed@[j] == before[j] by {}
    }
    let ghost pairs = timed@;
    let r = conversation_page_from_read_rows(timed, page_size);
    proof {
        assert(rows@ == read_rows);
        if exists|i: int| 0 <= i < rows@.len() && !role_row_fits(#[trigger] rows@[i]) {
            let i = choose|i: int| 0 <= i < rows@.len() && !role_row_fits(#[trigger] rows@[i]);
            assert(pairs[i].0 == rows@[i]);
            assert(!timed_row_fits(pairs[i]));
        }
        if r is Ok {
            assert forall|i: int| 0 <= i < rows@.len() implies role_row_fits(#[trigger] rows@[i]) by {
                assert(timed_row_fits(pairs[i]));
                assert(pairs[i].0 == rows@[i]);
            }
        }
        if r is Ok {
            let page = r->Ok_0@;
            assert forall|i: int| 0 <= i < page.conversations.len() implies #[trigger] summary_read_as(
                page.conversations[i],
                rows@[i],
            ) by {
                assert(page.conversations[i] == entry_of(pairs[i].0, pairs[i].1->0));
                assert(timed_row_fits(pairs[i]));
                assert(pairs[i].0 == rows@[i]);
            }
            if rows@.len() > page_size {
                assert(pairs[page_size - 1].0 == rows@[page_size - 1]);
            }
        }
    }
    r
}

} // verus!

verus! {

pub(crate) proof fn lemma_filter_take_step<T>(s: Seq<T>, k: int, pred: spec_fn(T) -> bool)
    requires
        0 <= k < s.len(),
    ensures
        s.take(k + 1).filter(pred) == (if pred(s[k]) {
            s.take(k).filter(pred).push(s[k])
        } else {
            s.take(k).filter(pred)
        }),
{
    reveal(Seq::filter);
    assert(s.take(k + 1).drop_last() =~= s.take(k));
    assert(s.take(k + 1).last() == s[k]);
}

/// Whether a left-joined message row carries a message.
pub open spec fn message_present(row: OptionalMessageRow) -> bool {
    row.id is Some
}

/// The rows that carry a message, in order.
pub open spec fn present_message_rows(rows: Seq<OptionalMessageRow>) -> Seq<OptionalMessageRow> {
    rows.filter(|row: OptionalMessageRow| message_present(row))
}

/// The message a present row reads as.
pub open spec fn message_row_read(m: crate::message::MessageView, row: OptionalMessageRow) -> bool {
    message_read_as(
        m,
        row.id->0,
        row.conversation_id->0,
        row.author_id->0,
        row.body->0@,
        row.created_at_ms->0,
    )
}

/// A message page read from left-joined rows with `page_size`: the first
/// `page_size` rows that carry a message, each read as that message, and a
/// cursor at the last kept one when more were read.
pub open spec fn message_page_reads(
    page: crate::list_messages::MessagePageView,
    rows: Seq<OptionalMessageRow>,
    page_size: usize,
) -> bool {
    let present = present_message_rows(rows);
    &&& page.messages.len() == kept(present.len(), page_size)
    &&& forall|i: int|
        0 <= i < page.messages.len() ==> #[trigger] message_row_read(page.messages[i], present[i])
    &&& page.next_cursor == (if present.len() > page_size {
        Some(present[page_size - 1].id->0)
    } else {
        None
    })
}

/// Filtering pairs by a test on their first parts picks, in order, the
/// pairs whose first parts filtering those first parts picks.
pub(crate) proof fn lemma_filter_firsts<A, B>(
    s: Seq<(A, B)>,
    f: Seq<A>,
    p: spec_fn(A) -> bool,
    q: spec_fn((A, B)) -> bool,
)
    requires
        s.len() == f.len(),
        forall|i: int| #![trigger s[i]] 0 <= i < s.len() ==> s[i].0 == f[i],
        forall|x: (A, B)| #[trigger] q(x) == p(x.0),
    ensures
        s.filter(q).len() == f.filter(p).len(),
        forall|i: int| #![trigger s.filter(q)[i]] 0 <= i < s.filter(q).len() ==> s.filter(q)[i].0
            == f.filter(p)[i],
    decreases s.len(),
{
    reveal(Seq::filter);
    if s.len() > 0 {
        lemma_filter_firsts(s.drop_last(), f.drop_last(), p, q);
        assert(s.last().0 == f.last());
        assert(q(s.last()) == p(f.last()));
    }
}

/// What holds of every item holds of every item a filter keeps.
pub(crate) proof fn lemma_filter_keeps_property<T>(s: Seq<T>, q: spec_fn(T) -> bool, prop: spec_fn(T) -> bool)
    requires
        forall|j: int| 0 <= j < s.len() ==> #[trigger] prop(s[j]),
    ensures
        forall|i: int| 0 <= i < s.filter(q).len() ==> #[trigger] prop(s.filter(q)[i]),
    decreases s.len(),
{
    reveal(Seq::filter);
    if s.len() > 0 {
        let sub = s.drop_last().filter(q);
        lemma_filter_keeps_property(s.drop_last(), q, prop);
        assert(prop(s[s.len() - 1]));
        assert forall|i: int| 0 <= i < s.filter(q).len() implies #[trigger] prop(s.filter(q)[i]) by {
            if i < sub.len() {
                assert(s.filter(q)[i] == sub[i]);
            } else {
                assert(s.filter(q)[i] == s.last());
            }
        }
    }
}

/// A message row together with its timestamp as read, if it could be read,
/// is acceptable: the viewer role is known, and the message columns are all
/// absent, or all present with fitting values and a read timestamp.
pub open spec fn timed_message_row_ok(p: (OptionalMessageRow, Option<SystemTime>)) -> bool {
    role_named(p.0.viewer_role@) is Some && (p.0.message_absent() || (p.0.message_complete()
        && p.0.message_parts_fit() && p.1 is Some))
}

/// Whether a message row with its timestamp carries a message.
pub open spec fn timed_message_present(p: (OptionalMessageRow, Option<SystemTime>)) -> bool {
    message_present(p.0)
}

/// The message a present row reads as, with its timestamp as read.
pub open spec fn message_of(p: (OptionalMessageRow, Option<SystemTime>)) -> crate::message::MessageView {
    crate::message::MessageView {
        id: p.0.id->0,
        conversation_id: p.0.conversation_id->0,
        author_id: p.0.author_id->0,
        body: p.0.body->0@,
        created_at: p.1->0,
    }
}

/// A message page read from rows whose timestamps were already read: the
/// first `page_size` rows that carry a message, each as that message, and a
/// cursor at the last kept one when more were read.
pub open spec fn message_page_at(
    page: crate::list_messages::MessagePageView,
    rows: Seq<(OptionalMessageRow, Option<SystemTime>)>,
    page_size: usize,
) -> bool {
    let present = rows.filter(|p: (OptionalMessageRow, Option<SystemTime>)| timed_message_present(p));
    &&& page.messages.len() == kept(present.len(), page_size)
    &&& forall|i: int|
        0 <= i < page.messages.len() ==> #[trigger] page.messages[i] == message_of(present[i])
    &&& page.next_cursor == (if present.len() > page_size {
        Some(present[page_size - 1].0.id->0)
    } else {
        None
    })
}

/// Builds a message page from left-joined rows, newest first and one past
/// the page size, each with its timestamp already read (`None` where it
/// could not be): no row at all means the reader may not see the
/// conversation; otherwise the page exists exactly when every row is
/// acceptable, and rows without a message are skipped.
pub fn message_page_from_read_rows(
    rows: Vec<(OptionalMessageRow, Option<SystemTime>)>,
    page_size: usize,
) -> (r: Result<MessagePage, ListMessagesError>)
    requires
        page_size >= 1,
    ensures
        rows@.len() == 0 ==> r == Err::<MessagePage, ListMessagesError>(ListMessagesError::NotFound),
        rows@.len() > 0 ==> (r is Ok <==> forall|i: int|
            0 <= i < rows@.len() ==> timed_message_row_ok(#[trigger] rows@[i])),
        rows@.len() > 0 && r is Err ==> r == Err::<MessagePage, ListMessagesError>(
            ListMessagesError::InvalidStoreResult,
        ),
        r matches Ok(p) ==> message_page_at(p@, rows@, page_size),
{
    if rows.len() == 0 {
        return Err(ListMessagesError::NotFound);
    }
    let ghost read_rows = rows@;
    let ghost pred = |p: (OptionalMessageRow, Option<SystemTime>)| timed_message_present(p);
    let mut messages: Vec<Message> = Vec::new();
    assert(read_rows.take(0) =~= Seq::<(OptionalMessageRow, Option<SystemTime>)>::empty());
    proof {
        reveal(Seq::filter);
    }
    for pair in it: rows.into_iter()
        invariant
            read_rows == it.seq(),
            read_rows == rows@,
            read_rows.len() > 0,
            pred == (|p: (OptionalMessageRow, Option<SystemTime>)| timed_message_present(p)),
            forall|j: int| 0 <= j < it.index() ==> #[trigger] timed_message_row_ok(read_rows[j]),
            messages@.len() == read_rows.take(it.index()).filter(pred).len(),
            forall|j: int|
                0 <= j < messages@.len() ==> #[trigger] messages@[j]@ == message_of(
                    read_rows.take(it.index()).filter(pred)[j],
                ),
    {
        let ghost k = it.index();
        assert(pair == read_rows[k]);
        proof {
            lemma_filter_take_step(read_rows, k, pred);
        }
        let ghost before = messages@;
        let ghost prefix = read_rows.take(k).filter(pred);
        let (row, created_at) = pair;
        match row.message_at(created_at) {
            Ok(Some(m)) => {
                messages.push(m);
                assert forall|j: int| 0 <= j < messages@.len() implies #[trigger] messages@[j]@
                    == message_of(read_rows.take(k + 1).filter(pred)[j]) by {
                    if j < before.len() {
                        assert(messages@[j] == before[j]);
                    }
                }
            },
            Ok(None) => {},
            Err(_) => {
                assert(!timed_message_row_ok(rows@[k]));
                return Err(ListMessagesError::InvalidStoreResult);
            },
        }
    }
    assert(read_rows.take(read_rows.len() as int) =~= read_rows);
    let ghost views = messages@.map_values(|m: Message| m@);
    let page = MessagePage::from_rows(messages, page_size);
    proof {
        let present = read_rows.filter(pred);
        assert forall|i: int| 0 <= i < page@.messages.len() implies #[trigger] page@.messages[i]
            == message_of(present[i]) by {
            assert(page@.messages[i] == views[i]);
        }
        if present.len() > page_size {
            assert(views[page_size - 1] == message_of(present[page_size - 1]));
            assert(crate::list_messages::message_ids(views)[page_size - 1] == views[page_size - 1].id);
        }
        assert(message_page_at(page@, rows@, page_size));
    }
    Ok(page)
}

/// Builds a message page from rows of a left join from the reader's
/// membership, newest first and one past the page size: no row at all
/// means the reader may not see the conversation; a row with an unknown
/// role, a partial message or values the domain forbids is an invalid store
/// result; rows without a message are skipped. Each row's timestamp is read
/// here; the rest is decided by `message_page_from_read_rows`.
pub fn message_page_from_rows(rows: Vec<OptionalMessageRow>, page_size: usize) -> (r: Result<
    MessagePage,
    ListMessagesError,
>)
    requires
        page_size >= 1,
    ensures
        rows@.len() == 0 ==> r == Err::<MessagePage, ListMessagesError>(ListMessagesError::NotFound),
        (exists|i: int| 0 <= i < rows@.len() && role_named(#[trigger] rows@[i].viewer_role@) is None)
            ==> r == Err::<MessagePage, ListMessagesError>(ListMessagesError::InvalidStoreResult),
        (rows@.len() > 0 && forall|i: int|
            0 <= i < rows@.len() ==> role_named(#[trigger] rows@[i].viewer_role@) is Some
                && rows@[i].message_absent()) ==> r is Ok,
        r is Err ==> (r == Err::<MessagePage, ListMessagesError>(ListMessagesError::NotFound) || r
            == Err::<MessagePage, ListMessagesError>(ListMessagesError::InvalidStoreResult)),
        r matches Ok(p) ==> message_page_reads(p@, rows@, page_size),
{
    let ghost read_rows = rows@;
    let mut timed: Vec<(OptionalMessageRow, Option<SystemTime>)> = Vec::new();
    for row in it: rows.into_iter()
        invariant
            read_rows == it.seq(),
            timed@.len() == it.index(),
            forall|j: int|
                0 <= j < timed@.len() ==> (#[trigger] timed@[j]).0 == read_rows[j] && (timed@[j].1 matches Some(t)
                    ==> (read_rows[j].created_at_ms matches Some(v) && millis_since_unix_epoch(t)
                    == Some(v as int))),
    {
        let created_at = stored_time(row.created_at_ms);
        let ghost before = timed@;
        timed.push((row, created_at));
        assert forall|j: int| 0 <= j < timed@.len() - 1 implies timed@[j] == before[j] by {}
    }
    let ghost pairs = timed@;
    let r = message_page_from_read_rows(timed, page_size);
    proof {
        assert(rows@ == read_rows);
        assert forall|i: int| 0 <= i < pairs.len() implies #[trigger] pairs[i].0 == rows@[i] by {}
        if exists|i: int| 0 <= i < rows@.len() && role_named(#[trigger] rows@[i].viewer_role@) is None {
            let i = choose|i: int| 0 <= i < rows@.len() && role_named(#[trigger] rows@[i].viewer_role@) is None;
            assert(!timed_message_row_ok(pairs[i]));
        }
        if rows@.len() > 0 && forall|i: int|
            0 <= i < rows@.len() ==> role_named(#[trigger] rows@[i].viewer_role@) is Some
                && rows@[i].message_absent() {
            assert forall|i: int| 0 <= i < pairs.len() implies timed_message_row_ok(#[trigger] pairs[i]) by {
                assert(pairs[i].0 == rows@[i]);
                assert(role_named(rows@[i].viewer_role@) is Some);
            }
        }
        if r is Ok {
            let page = r->Ok_0@;
            let pp = |p: (OptionalMessageRow, Option<SystemTime>)| timed_message_present(p);
            let rp = |row: OptionalMessageRow| message_present(row);
            lemma_filter_firsts(pairs, rows@, rp, pp);
            let present_pairs = pairs.filter(pp);
            let present = present_message_rows(rows@);
            assert(present == rows@.filter(rp));
            let good = |p: (OptionalMessageRow, Option<SystemTime>)|
                timed_message_row_ok(p) && (p.1 matches Some(t) ==> (p.0.created_at_ms matches Some(v)
                    && millis_since_unix_epoch(t) == Some(v as int)));
            assert forall|j: int| 0 <= j < pairs.len() implies #[trigger] good(pairs[j]) by {
                assert(timed_message_row_ok(pairs[j]));
            }
            lemma_filter_keeps_property(pairs, pp, good);
            assert forall|i: int| 0 <= i < page.messages.len() implies #[trigger] message_row_read(
                page.messages[i],
                present[i],
            ) by {
                assert(page.messages[i] == message_of(present_pairs[i]));
                broadcast use vstd::seq_lib::group_filter_ensures;
                assert(pp(present_pairs[i]));
                assert(good(present_pairs[i]));
                assert(present_pairs[i].0 == present[i]);
            }
            if present.len() > page_size {
                assert(present_pairs[page_size - 1].0 == present[page_size - 1]);
            }
        }
    }
    r
}

} // verus!

verus! {

/// Whether a left-joined member row carries a member.
pub open spec fn member_present(row: OptionalConversationMemberRow) -> bool {
    row.user_id is Some
}

/// The rows that carry a member, in order.
pub open spec fn present_member_rows(rows: Seq<OptionalConversationMemberRow>) -> Seq<
    OptionalConversationMemberRow,
> {
    rows.filter(|row: OptionalConversationMemberRow| member_present(row))
}

/// The member a present row reads as.
pub open spec fn member_row_read(
    m: crate::list_members::ConversationMemberView,
    row: OptionalConversationMemberRow,
) -> bool {
    &&& user_read_as(m.user, row.user_id->0, row.display_name->0@, row.user_created_at_ms->0)
    &&& membership_read_as(
        m.membership,
        row.conversation_id->0,
        row.user_id->0,
        row.role->0@,
        row.joined_at_ms->0,
    )
}

/// A member page read from left-joined rows with `page_size`: the first
/// `page_size` rows that carry a member, each read as that member, and a
/// cursor at the last kept one when more were read.
pub open spec fn member_page_reads(
    page: crate::list_members::MemberPageView,
    rows: Seq<OptionalConversationMemberRow>,
    page_size: usize,
) -> bool {
    let present = present_member_rows(rows);
    &&& page.members.len() == kept(present.len(), page_size)
    &&& forall|i: int|
        0 <= i < page.members.len() ==> #[trigger] member_row_read(page.members[i], present[i])
    &&& page.next_cursor == (if present.len() > page_size {
        Some(present[page_size - 1].user_id->0)
    } else {
        None
    })
}

/// The timestamps of a member row as read, if they could be read: when the
/// member joined, and when the member's account was created.
pub type MemberTimes = (Option<SystemTime>, Option<SystemTime>);

/// A member row together with its timestamps as read is acceptable: the
/// viewer role is known, and the member columns are all absent, or all
/// present with fitting values and both timestamps read.
pub open spec fn timed_member_row_ok(p: (OptionalConversationMemberRow, MemberTimes)) -> bool {
    role_named(p.0.viewer_role@) is Some && (p.0.member_absent() || (p.0.member_complete()
        && p.0.member_parts_fit() && p.1.0 is Some && p.1.1 is Some))
}

/// Whether a member row with its timestamps carries a member.
pub open spec fn timed_member_present(p: (OptionalConversationMemberRow, MemberTimes)) -> bool {
    member_present(p.0)
}

/// The member a present row reads as, with its timestamps as read.
pub open spec fn member_of(p: (OptionalConversationMemberRow, MemberTimes)) -> crate::list_members::ConversationMemberView {
    crate::list_members::ConversationMemberView {
        user: crate::user::UserView {
            id: p.0.user_id->0,
            display_name: p.0.display_name->0@,
            created_at: p.1.1->0,
        },
        membership: crate::membership::MembershipView {
            conversation_id: p.0.conversation_id->0,
            user_id: p.0.user_id->0,
            role: role_named(p.0.role->0@)->0,
            joined_at: p.1.0->0,
        },
    }
}

/// A member page read from rows whose timestamps were already read: the
/// first `page_size` rows that carry a member, each as that member, and a
/// cursor at the last kept one when more were read.
pub open spec fn member_page_at(
    page: crate::list_members::MemberPageView,
    rows: Seq<(OptionalConversationMemberRow, MemberTimes)>,
    page_size: usize,
) -> bool {
    let present = rows.filter(|p: (OptionalConversationMemberRow, MemberTimes)| timed_member_present(p));
    &&& page.members.len() == kept(present.len(), page_size)
    &&& forall|i: int|
        0 <= i < page.members.len() ==> #[trigger] page.members[i] == member_of(present[i])
    &&& page.next_cursor == (if present.len() > page_size {
        Some(present[page_size - 1].0.user_id->0)
    } else {
        None
    })
}

/// Builds a member page from left-joined rows, in user order and one past
/// the page size, each with its timestamps already read (`None` where one
/// could not be): no row at all means the reader may not see the
/// conversation; otherwise the page exists exactly when every row is
/// acceptable, and rows without a member are skipped.
pub fn member_page_from_read_rows(
    rows: Vec<(OptionalConversationMemberRow, MemberTimes)>,
    page_size: usize,
) -> (r: Result<MemberPage, ListMembersError>)
    requires
        page_size >= 1,
    ensures
        rows@.len() == 0 ==> r == Err::<MemberPage, ListMembersError>(ListMembersError::NotFound),
        rows@.len() > 0 ==> (r is Ok <==> forall|i: int|
            0 <= i < rows@.len() ==> timed_member_row_ok(#[trigger] rows@[i])),
        rows@.len() > 0 && r is Err ==> r == Err::<MemberPage, ListMembersError>(
            ListMembersError::InvalidStoreResult,
        ),
        r matches Ok(p) ==> member_page_at(p@, rows@, page_size),
{
    if rows.len() == 0 {
        return Err(ListMembersError::NotFound);
    }
    let ghost read_rows = rows@;
    let ghost pred = |p: (OptionalConversationMemberRow, MemberTimes)| timed_member_present(p);
    let mut members: Vec<ConversationMember> = Vec::new();
    assert(read_rows.take(0) =~= Seq::<(OptionalConversationMemberRow, MemberTimes)>::empty());
    proof {
        reveal(Seq::filter);
    }
    for pair in it: rows.into_iter()
        invariant
            read_rows == it.seq(),
            read_rows == rows@,
            read_rows.len() > 0,
            pred == (|p: (OptionalConversationMemberRow, MemberTimes)| timed_member_present(p)),
            forall|j: int| 0 <= j < it.index() ==> #[trigger] timed_member_row_ok(read_rows[j]),
            members@.len() == read_rows.take(it.index()).filter(pred).len(),
            forall|j: int|
                0 <= j < members@.len() ==> #[trigger] members@[j]@ == member_of(
                    read_rows.take(it.index()).filter(pred)[j],
                ),
    {
        let ghost k = it.index();
        assert(pair == read_rows[k]);
        proof {
            lemma_filter_take_step(read_rows, k, pred);
        }
        let ghost before = members@;
        let (row, times) = pair;
        let (joined_at, user_created_at) = times;
        match row.member_at(joined_at, user_created_at) {
            Ok(Some(m)) => {
                members.push(m);
                assert forall|j: int| 0 <= j < members@.len() implies #[trigger] members@[j]@
                    == member_of(read_rows.take(k + 1).filter(pred)[j]) by {
                    if j < before.len() {
                        assert(members@[j] == before[j]);
                    }
                }
            },
            Ok(None) => {},
            Err(_) => {
                assert(!timed_member_row_ok(rows@[k]));
                return Err(ListMembersError::InvalidStoreResult);
            },
        }
    }
    assert(read_rows.take(read_rows.len() as int) =~= read_rows);
    let ghost views = members@.map_values(|m: ConversationMember| m@);
    let page = MemberPage::from_rows(members, page_size);
    proof {
        let present = read_rows.filter(pred);
        assert forall|i: int| 0 <= i < page@.members.len() implies #[trigger] page@.members[i]
            == member_of(present[i]) by {
            assert(page@.members[i] == views[i]);
        }
        if present.len() > page_size {
            assert(views[page_size - 1] == member_of(present[page_size - 1]));
            assert(crate::list_members::member_ids(views)[page_size - 1] == views[page_size - 1].user.id);
        }
        assert(member_page_at(page@, rows@, page_size));
    }
    Ok(page)
}

/// Builds a member page from rows of a left join from the reader's
/// membership, in user order and one past the page size: no row at all
/// means the reader may not see the conversation; a row with an unknown
/// role, a partial member or values the domain forbids is an invalid store
/// result; rows without a member are skipped. Each row's timestamps are read
/// here; the rest is decided by `member_page_from_read_rows`.
pub fn member_page_from_rows(rows: Vec<OptionalConversationMemberRow>, page_size: usize) -> (r: Result<
    MemberPage,
    ListMembersError,
>)
    requires
        page_size >= 1,
    ensures
        rows@.len() == 0 ==> r == Err::<MemberPage, ListMembersError>(ListMembersError::NotFound),
        (exists|i: int| 0 <= i < rows@.len() && role_named(#[trigger] rows@[i].viewer_role@) is None)
            ==> r == Err::<MemberPage, ListMembersError>(ListMembersError::InvalidStoreResult),
        (rows@.len() > 0 && forall|i: int|
            0 <= i < rows@.len() ==> role_named(#[trigger] rows@[i].viewer_role@) is Some
                && rows@[i].member_absent()) ==> r is Ok,
        r is Err ==> (r == Err::<MemberPage, ListMembersError>(ListMembersError::NotFound) || r
            == Err::<MemberPage, ListMembersError>(ListMembersError::InvalidStoreResult)),
        r matches Ok(p) ==> member_page_reads(p@, rows@, page_size),
{
    let ghost read_rows = rows@;
    let mut timed: Vec<(OptionalConversationMemberRow, MemberTimes)> = Vec::new();
    for row in it: rows.into_iter()
        invariant
            read_rows == it.seq(),
            timed@.len() == it.index(),
            forall|j: int|
                0 <= j < timed@.len() ==> (#[trigger] timed@[j]).0 == read_rows[j] && (timed@[j].1.0 matches Some(t)
                    ==> (read_rows[j].joined_at_ms matches Some(v) && millis_since_unix_epoch(t)
                    == Some(v as int))) && (timed@[j].1.1 matches Some(t)
                    ==> (read_rows[j].user_created_at_ms matches Some(v) && millis_since_unix_epoch(t)
                    == Some(v as int))),
    {
        let joined_at = stored_time(row.joined_at_ms);
        let user_created_at = stored_time(row.user_created_at_ms);
        let ghost before = timed@;
        timed.push((row, (joined_at, user_created_at)));
        assert forall|j: int| 0 <= j < timed@.len() - 1 implies timed@[j] == before[j] by {}
    }
    let ghost pairs = timed@;
    let r = member_page_from_read_rows(timed, page_size);
    proof {
        assert(rows@ == read_rows);
        assert forall|i: int| 0 <= i < pairs.len() implies #[trigger] pairs[i].0 == rows@[i] by {}
        if exists|i: int| 0 <= i < rows@.len() && role_named(#[trigger] rows@[i].viewer_role@) is None {
            let i = choose|i: int| 0 <= i < rows@.len() && role_named(#[trigger] rows@[i].viewer_role@) is None;
            assert(!timed_member_row_ok(pairs[i]));
        }
        if rows@.len() > 0 && forall|i: int|
            0 <= i < rows@.len() ==> role_named(#[trigger] rows@[i].viewer_role@) is Some
                && rows@[i].member_absent() {
            assert forall|i: int| 0 <= i < pairs.len() implies timed_member_row_ok(#[trigger] pairs[i]) by {
                assert(pairs[i].0 == rows@[i]);
                assert(role_named(rows@[i].viewer_role@) is Some);
            }
        }
        if r is Ok {
            let page = r->Ok_0@;
            let pp = |p: (OptionalConversationMemberRow, MemberTimes)| timed_member_present(p);
            let rp = |row: OptionalConversationMemberRow| member_present(row);
            lemma_filter_firsts(pairs, rows@, rp, pp);
            let present_pairs = pairs.filter(pp);
            let present = present_member_rows(rows@);
            assert(present == rows@.filter(rp));
            let good = |p: (OptionalConversationMemberRow, MemberTimes)|
                timed_member_row_ok(p) && (p.1.0 matches Some(t) ==> (p.0.joined_at_ms matches Some(v)
                    && millis_since_unix_epoch(t) == Some(v as int))) && (p.1.1 matches Some(t) ==> (
                p.0.user_created_at_ms matches Some(v) && millis_since_unix_epoch(t) == Some(v as int)));
            assert forall|j: int| 0 <= j < pairs.len() implies #[trigger] good(pairs[j]) by {
                assert(timed_member_row_ok(pairs[j]));
            }
            lemma_filter_keeps_property(pairs, pp, good);
            assert forall|i: int| 0 <= i < page.members.len() implies #[trigger] member_row_read(
                page.members[i],
                present[i],
            ) by {
                assert(page.members[i] == member_of(present_pairs[i]));
                broadcast use vstd::seq_lib::group_filter_ensures;
                assert(pp(present_pairs[i]));
                assert(good(present_pairs[i]));
                assert(present_pairs[i].0 == present[i]);
            }
            if present.len() > page_size {
                assert(present_pairs[page_size - 1].0 == present[page_size - 1]);
            }
        }
    }
    r
}

} // verus!
