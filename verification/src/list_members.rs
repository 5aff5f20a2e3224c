use vstd::prelude::*;

use crate::chat::Chat;
use crate::id::{ConversationId, UserId};
use crate::membership::{Membership, MembershipView};
use crate::page::{
    all_above, cursor_names_last, cut_cursor, cut_ids, lemma_cut_keeps_order,
    lemma_ordered_ids_are_distinct, page_size_accepted, strictly_ascending,
};
use crate::user::{User, UserView};

verus! {

/// Default number of members requested in one page.
pub const DEFAULT_MEMBER_PAGE_SIZE: usize = 100;

/// Maximum number of members accepted in one page request.
pub const MAX_MEMBER_PAGE_SIZE: usize = 200;

/// The conversation, cursor and page size of a member query.
pub struct ListMembersView {
    pub conversation_id: i64,
    pub after: Option<i64>,
    pub limit: usize,
}

/// Requests a page of conversation members after an optional user cursor.
#[derive(Clone, Copy, Debug, PartialEq, Eq, Structural)]
pub struct ListMembers {
    conversation_id: ConversationId,
    after: Option<UserId>,
    limit: usize,
}

impl View for ListMembers {
    type V = ListMembersView;

    closed spec fn view(&self) -> ListMembersView {
        ListMembersView {
            conversation_id: self.conversation_id@,
            after: match self.after {
                Some(id) => Some(id@),
                None => None,
            },
            limit: self.limit,
        }
    }
}

impl ListMembers {
    /// Creates a query using the default page size.
    pub fn new(conversation_id: ConversationId) -> (r: Self)
        ensures
            r@ == (ListMembersView {
                conversation_id: conversation_id@,
                after: None,
                limit: DEFAULT_MEMBER_PAGE_SIZE,
            }),
    {
        ListMembers { conversation_id, after: None, limit: DEFAULT_MEMBER_PAGE_SIZE }
    }

    /// Sets the exclusive lower user-ID cursor.
    pub fn after(self, user_id: UserId) -> (r: Self)
        ensures
            r@ == (ListMembersView {
                conversation_id: self@.conversation_id,
                after: Some(user_id@),
                limit: self@.limit,
            }),
    {
        ListMembers { conversation_id: self.conversation_id, after: Some(user_id), limit: self.limit }
    }

    /// Sets the requested page size.
    pub fn limit(self, limit: usize) -> (r: Self)
        ensures
            r@ == (ListMembersView {
                conversation_id: self@.conversation_id,
                after: self@.after,
                limit,
            }),
    {
        ListMembers { conversation_id: self.conversation_id, after: self.after, limit }
    }

    /// Returns the target conversation.
    pub fn conversation_id(self) -> (r: ConversationId)
        ensures
            r@ == self@.conversation_id,
    {
        self.conversation_id
    }

    /// Returns the exclusive lower cursor.
    pub fn after_user_id(self) -> (r: Option<UserId>)
        ensures
            r is Some <==> self@.after is Some,
            r matches Some(id) ==> self@.after == Some(id@),
    {
        self.after
    }

    /// Returns the requested page size.
    pub fn page_size(self) -> (r: usize)
        ensures
            r == self@.limit,
    {
        self.limit
    }
}

/// A user together with their membership.
pub struct ConversationMemberView {
    pub user: UserView,
    pub membership: MembershipView,
}

/// The error returned for mismatched user and membership values.
#[derive(Clone, Copy, Debug, PartialEq, Eq, Structural)]
pub struct InvalidConversationMember;

/// A user and their conversation membership.
#[derive(Debug, PartialEq, Eq)]
pub struct ConversationMember {
    user: User,
    membership: Membership,
}

impl View for ConversationMember {
    type V = ConversationMemberView;

    closed spec fn view(&self) -> ConversationMemberView {
        ConversationMemberView { user: self.user@, membership: self.membership@ }
    }
}

impl ConversationMember {
    /// A member's membership always names that member's user.
    #[verifier::type_invariant]
    spec fn names_its_user(self) -> bool {
        self.user@.id == self.membership@.user_id
    }
}

impl Clone for ConversationMember {
    fn clone(&self) -> (r: Self)
        ensures
            r == *self,
    {
        proof {
            use_type_invariant(self);
        }
        ConversationMember { user: self.user.clone(), membership: self.membership.clone() }
    }
}

impl ConversationMember {
    /// Creates a member entry returned by a read store; the user and the
    /// membership must name the same user.
    pub fn new(user: User, membership: Membership) -> (r: Result<Self, InvalidConversationMember>)
        ensures
            r is Ok <==> user@.id == membership@.user_id,
            r matches Ok(m) ==> m@ == (ConversationMemberView {
                user: user@,
                membership: membership@,
            }),
    {
        if user.id().get() != membership.user_id().get() {
            return Err(InvalidConversationMember);
        }
        Ok(ConversationMember { user, membership })
    }

    /// Returns the user.
    pub fn user(&self) -> (r: &User)
        ensures
            r@ == self@.user,
            r@.id == self@.membership.user_id,
    {
        proof {
            use_type_invariant(self);
        }
        &self.user
    }

    /// Returns the membership.
    pub fn membership(&self) -> (r: &Membership)
        ensures
            r@ == self@.membership,
    {
        &self.membership
    }
}

/// The entries and next-page cursor of a member page.
pub struct MemberPageView {
    pub members: Seq<ConversationMemberView>,
    pub next_cursor: Option<i64>,
}

/// The user identifiers of a member page, in page order.
pub open spec fn member_ids(members: Seq<ConversationMemberView>) -> Seq<i64> {
    members.map_values(|m: ConversationMemberView| m.user.id)
}

/// A page of conversation members ordered by user ID.
#[derive(Clone, Debug, PartialEq, Eq)]
pub struct MemberPage {
    members: Vec<ConversationMember>,
    next_cursor: Option<UserId>,
}

impl View for MemberPage {
    type V = MemberPageView;

    closed spec fn view(&self) -> MemberPageView {
        MemberPageView {
            members: self.members@.map_values(|m: ConversationMember| m@),
            next_cursor: match self.next_cursor {
                Some(id) => Some(id@),
                None => None,
            },
        }
    }
}

impl MemberPage {
    /// Creates a page returned by a read store.
    pub fn new(members: Vec<ConversationMember>, next_cursor: Option<UserId>) -> (r: Self)
        ensures
            r@.members == members@.map_values(|m: ConversationMember| m@),
            r@.next_cursor == (match next_cursor {
                Some(id) => Some(id@),
                None => None::<i64>,
            }),
    {
        MemberPage { members, next_cursor }
    }

    /// Builds the page a store returns from rows read in page order, one row
    /// past the page size: the rows beyond `page_size` are dropped and, when
    /// any were, the last kept member becomes the next-page cursor.
    pub fn from_rows(rows: Vec<ConversationMember>, page_size: usize) -> (r: Self)
        requires
            page_size >= 1,
        ensures
            member_ids(r@.members) == cut_ids(
                member_ids(rows@.map_values(|m: ConversationMember| m@)),
                page_size,
            ),
            r@.members == (if rows@.len() > page_size {
                rows@.map_values(|m: ConversationMember| m@).take(page_size as int)
            } else {
                rows@.map_values(|m: ConversationMember| m@)
            }),
            r@.next_cursor == cut_cursor(
                member_ids(rows@.map_values(|m: ConversationMember| m@)),
                page_size,
            ),
    {
        let mut rows = rows;
        let ghost all = rows@.map_values(|m: ConversationMember| m@);
        let has_more = rows.len() > page_size;
        if has_more {
            rows.truncate(page_size);
        }
        let next_cursor = if has_more {
            Some(rows[page_size - 1].user().id())
        } else {
            None
        };
        let r = MemberPage { members: rows, next_cursor };
        proof {
            if has_more {
                assert(r@.members =~= all.take(page_size as int));
                assert(member_ids(r@.members) =~= member_ids(all).take(page_size as int));
            } else {
                assert(r@.members =~= all);
            }
        }
        r
    }

    /// Returns members ordered by ascending user ID.
    pub fn members(&self) -> (r: &[ConversationMember])
        ensures
            r@.map_values(|m: ConversationMember| m@) == self@.members,
    {
        self.members.as_slice()
    }

    /// Returns the cursor for the next page, when one exists.
    pub fn next_cursor(&self) -> (r: Option<UserId>)
        ensures
            r is Some <==> self@.next_cursor is Some,
            r matches Some(id) ==> self@.next_cursor == Some(id@),
    {
        self.next_cursor
    }

    /// Consumes the page and returns its parts.
    pub fn into_parts(self) -> (r: (Vec<ConversationMember>, Option<UserId>))
        ensures
            r.0@.map_values(|m: ConversationMember| m@) == self@.members,
            r.1 is Some <==> self@.next_cursor is Some,
            r.1 matches Some(id) ==> self@.next_cursor == Some(id@),
    {
        (self.members, self.next_cursor)
    }
}

/// Describes why listing members failed.
#[derive(Clone, Copy, Debug, PartialEq, Eq, Structural)]
pub enum ListMembersError {
    /// The requested page size is outside `1..=MAX_MEMBER_PAGE_SIZE`.
    InvalidPageSize {
        /// Rejected page size.
        value: usize,
        /// Maximum accepted page size.
        max: usize,
    },
    /// The conversation does not exist or is not visible to the actor.
    NotFound,
    /// The store returned membership inconsistent with the request.
    InvalidStoreResult,
    /// Persistence was temporarily unavailable.
    StoreUnavailable,
}

/// Every membership of the page belongs to `conversation_id`.
pub open spec fn all_in_conversation(members: Seq<ConversationMemberView>, conversation_id: i64) -> bool {
    forall|i: int| 0 <= i < members.len() ==> #[trigger] members[i].membership.conversation_id
        == conversation_id
}

/// Every member's membership names that member's user.
pub open spec fn all_name_their_users(members: Seq<ConversationMemberView>) -> bool {
    forall|i: int| 0 <= i < members.len() ==> #[trigger] members[i].membership.user_id
        == members[i].user.id
}

/// Whether a member page answers `query`: at most `limit` members of the
/// queried conversation, each membership naming its member's user, in
/// ascending user order with no repeats, all after the query cursor, and a
/// next-page cursor that, if any, names the last.
pub open spec fn member_page_valid(query: ListMembersView, page: MemberPageView) -> bool {
    let ids = member_ids(page.members);
    &&& ids.len() <= query.limit
    &&& all_in_conversation(page.members, query.conversation_id)
    &&& all_name_their_users(page.members)
    &&& strictly_ascending(ids)
    &&& all_above(ids, query.after)
    &&& cursor_names_last(page.next_cursor, ids)
}

impl<S> Chat<S> {
    /// Checks the requested page size before the store is read.
    pub fn list_members_request(&self, query: ListMembers) -> (r: Result<(), ListMembersError>)
        ensures
            page_size_accepted(query@.limit, MAX_MEMBER_PAGE_SIZE) ==> r is Ok,
            !page_size_accepted(query@.limit, MAX_MEMBER_PAGE_SIZE) ==> r == Err::<
                (),
                ListMembersError,
            >(ListMembersError::InvalidPageSize { value: query@.limit, max: MAX_MEMBER_PAGE_SIZE }),
    {
        if query.limit < 1 || query.limit > MAX_MEMBER_PAGE_SIZE {
            return Err(
                ListMembersError::InvalidPageSize { value: query.limit, max: MAX_MEMBER_PAGE_SIZE },
            );
        }
        Ok(())
    }

    /// Checks what the store answered: a store error is passed on, a page that
    /// does not answer the query is an invalid store result, and a valid page
    /// is returned unchanged.
    pub fn list_members_outcome(&self, query: ListMembers, stored: Result<MemberPage, ListMembersError>) -> (r:
        Result<MemberPage, ListMembersError>)
        ensures
            match stored {
                Err(e) => r == Err::<MemberPage, ListMembersError>(e),
                Ok(p) => if member_page_valid(query@, p@) {
                    r == Ok::<MemberPage, ListMembersError>(p)
                } else {
                    r == Err::<MemberPage, ListMembersError>(ListMembersError::InvalidStoreResult)
                },
            },
    {
        let page = match stored {
            Ok(p) => p,
            Err(e) => return Err(e),
        };
        if member_page_matches(query, &page) {
            Ok(page)
        } else {
            Err(ListMembersError::InvalidStoreResult)
        }
    }
}

/// Decides whether `page` answers `query`.
pub fn member_page_matches(query: ListMembers, page: &MemberPage) -> (r: bool)
    ensures
        r == member_page_valid(query@, page@),
{
    let entries = &page.members;
    let ghost members = page@.members;
    let ghost ids = member_ids(members);
    let n = entries.len();
    if n > query.limit {
        return false;
    }
    let mut i: usize = 0;
    while i < n
        invariant
            n == entries@.len(),
            members == entries@.map_values(|m: ConversationMember| m@),
            page@.members == members,
            ids == member_ids(members),
            ids.len() == n,
            i <= n,
            all_in_conversation(members.take(i as int), query@.conversation_id),
            all_name_their_users(members.take(i as int)),
            strictly_ascending(ids.take(i as int)),
            all_above(ids.take(i as int), query@.after),
        decreases n - i,
    {
        let id = entries[i].user().id().get();
        assert(id == ids[i as int]);
        assert(members[i as int].membership.user_id == members[i as int].user.id);
        if entries[i].membership().conversation_id().get() != query.conversation_id.get() {
            assert(members[i as int].membership.conversation_id != query@.conversation_id);
            return false;
        }
        if i > 0 {
            let previous = entries[i - 1].user().id().get();
            assert(previous == ids[i - 1]);
            if previous >= id {
                assert(!strictly_ascending(ids));
                return false;
            }
        }
        match query.after {
            Some(cursor) => {
                if id <= cursor.get() {
                    assert(!all_above(ids, query@.after));
                    return false;
                }
            },
            None => {},
        }
        proof {
            let t = ids.take(i + 1);
            assert forall|a: int, b: int| 0 <= a < b < t.len() implies t[a] < t[b] by {
                assert(t[a] == ids[a] && t[b] == ids[b]);
                if b < i {
                    assert(ids.take(i as int)[a] < ids.take(i as int)[b]);
                } else if a < i - 1 {
                    assert(ids.take(i as int)[a] < ids.take(i as int)[i - 1]);
                }
            }
            if query@.after is Some {
                assert forall|a: int| 0 <= a < t.len() implies t[a] > query@.after->0 by {
                    if a < i {
                        assert(ids.take(i as int)[a] == t[a]);
                    }
                }
            }
            let mt = members.take(i + 1);
            assert forall|a: int| 0 <= a < mt.len() implies #[trigger] mt[a].membership.conversation_id
                == query@.conversation_id by {
                if a < i {
                    assert(members.take(i as int)[a] == mt[a]);
                }
            }
            assert forall|a: int| 0 <= a < mt.len() implies #[trigger] mt[a].membership.user_id
                == mt[a].user.id by {
                if a < i {
                    assert(members.take(i as int)[a] == mt[a]);
                }
            }
        }
        i = i + 1;
    }
    assert(ids.take(n as int) =~= ids);
    assert(members.take(n as int) =~= members);
    match page.next_cursor {
        None => true,
        Some(cursor) => {
            if n == 0 {
                return false;
            }
            let last = entries[n - 1].user().id().get();
            assert(last == ids.last());
            cursor.get() == last
        },
    }
}

/// A page cut from member rows that the store read in ascending user order,
/// after the query cursor and within the queried conversation, at the query's
/// accepted page size, answers the query.
pub proof fn lemma_cut_member_page_is_valid(
    query: ListMembersView,
    rows: Seq<ConversationMemberView>,
    page: MemberPageView,
)
    requires
        page_size_accepted(query.limit, MAX_MEMBER_PAGE_SIZE),
        strictly_ascending(member_ids(rows)),
        all_above(member_ids(rows), query.after),
        all_in_conversation(rows, query.conversation_id),
        all_name_their_users(rows),
        page.members == (if rows.len() > query.limit {
            rows.take(query.limit as int)
        } else {
            rows
        }),
        page.next_cursor == cut_cursor(member_ids(rows), query.limit),
    ensures
        member_page_valid(query, page),
{
    let ids = member_ids(rows);
    if rows.len() > query.limit {
        assert(member_ids(page.members) =~= ids.take(query.limit as int));
        assert forall|i: int| 0 <= i < page.members.len() implies #[trigger] page.members[i].membership.conversation_id
            == query.conversation_id by {
            assert(page.members[i] == rows[i]);
        }
        assert forall|i: int| 0 <= i < page.members.len() implies #[trigger] page.members[i].membership.user_id
            == page.members[i].user.id by {
            assert(page.members[i] == rows[i]);
        }
    }
    assert(member_ids(page.members) == cut_ids(ids, query.limit));
    lemma_cut_keeps_order(ids, query.limit);
    lemma_ordered_ids_are_distinct(member_ids(page.members));
}

} // verus!
