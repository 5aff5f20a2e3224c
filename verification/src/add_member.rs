use vstd::prelude::*;

use crate::chat::Chat;
use crate::event::{events_view, ChatEvent, ChatEventView};
use crate::id::{ConversationId, UserId};
use crate::membership::{Membership, MembershipRole, MembershipView, NewMembership};

verus! {

/// The conversation and user named by a membership command.
pub struct MemberCommandView {
    pub conversation_id: i64,
    pub user_id: i64,
}

/// Requests adding a user to a conversation as a member.
#[derive(Clone, Copy, Debug, PartialEq, Eq, Structural)]
pub struct AddMember {
    conversation_id: ConversationId,
    user_id: UserId,
}

impl View for AddMember {
    type V = MemberCommandView;

    closed spec fn view(&self) -> MemberCommandView {
        MemberCommandView { conversation_id: self.conversation_id@, user_id: self.user_id@ }
    }
}

impl AddMember {
    /// Creates an add-member command.
    pub fn new(conversation_id: ConversationId, user_id: UserId) -> (r: Self)
        ensures
            r@ == (MemberCommandView { conversation_id: conversation_id@, user_id: user_id@ }),
    {
        AddMember { conversation_id, user_id }
    }

    /// Returns the target conversation.
    pub fn conversation_id(self) -> (r: ConversationId)
        ensures
            r@ == self@.conversation_id,
    {
        self.conversation_id
    }

    /// Returns the user to add.
    pub fn user_id(self) -> (r: UserId)
        ensures
            r@ == self@.user_id,
    {
        self.user_id
    }
}

/// Describes why adding a member failed.
#[derive(Clone, Copy, Debug, PartialEq, Eq, Structural)]
pub enum AddMemberError {
    /// The target conversation does not exist.
    ConversationNotFound,
    /// The user to add does not exist.
    UserNotFound,
    /// The user is already a member.
    AlreadyMember,
    /// The actor is not a conversation owner.
    NotOwner,
    /// The store returned inconsistent membership state.
    InvalidStoreResult,
    /// Persistence was temporarily unavailable.
    StoreUnavailable,
}

/// The membership and events of a successful membership change.
pub struct MembershipResultView {
    pub membership: MembershipView,
    pub events: Seq<ChatEventView>,
}

/// The result of adding a member.
#[derive(Clone, Debug, PartialEq, Eq)]
pub struct AddMemberResult {
    membership: Membership,
    events: Vec<ChatEvent>,
}

impl View for AddMemberResult {
    type V = MembershipResultView;

    closed spec fn view(&self) -> MembershipResultView {
        MembershipResultView { membership: self.membership@, events: events_view(self.events@) }
    }
}

impl AddMemberResult {
    fn new(membership: Membership) -> (r: Result<Self, AddMemberError>)
        ensures
            membership@.role == MembershipRole::Member <==> r is Ok,
            r matches Err(e) ==> e == AddMemberError::InvalidStoreResult,
            r matches Ok(result) ==> result@.membership == membership@ && result@.events == seq![
                ChatEventView::MemberAdded(membership@),
            ],
    {
        if membership.role() != MembershipRole::Member {
            return Err(AddMemberError::InvalidStoreResult);
        }
        let events = vec![ChatEvent::MemberAdded { membership: membership.clone() }];
        let r = AddMemberResult { membership, events };
        assert(r@.events =~= seq![ChatEventView::MemberAdded(r@.membership)]);
        Ok(r)
    }

    /// Returns the created membership.
    pub fn membership(&self) -> (r: &Membership)
        ensures
            r@ == self@.membership,
    {
        &self.membership
    }

    /// Returns the events produced after persistence succeeded.
    pub fn events(&self) -> (r: &[ChatEvent])
        ensures
            events_view(r@) == self@.events,
    {
        self.events.as_slice()
    }
}

impl<S> Chat<S> {
    /// Builds the membership request handed to the store.
    pub fn add_member_request(&self, actor_id: UserId, command: AddMember) -> (r: NewMembership)
        ensures
            r@.actor_id == actor_id@,
            r@.conversation_id == command@.conversation_id,
            r@.user_id == command@.user_id,
    {
        NewMembership::new(actor_id, command.conversation_id, command.user_id)
    }

    /// Checks what the store answered: a store error is passed on; a
    /// membership of another conversation or user, or with a role other than
    /// member, is an invalid store result; otherwise the result carries one
    /// `MemberAdded` event.
    pub fn add_member_outcome(&self, command: AddMember, stored: Result<Membership, AddMemberError>) -> (r:
        Result<AddMemberResult, AddMemberError>)
        ensures
            match stored {
                Err(e) => r == Err::<AddMemberResult, AddMemberError>(e),
                Ok(m) => if m@.conversation_id != command@.conversation_id || m@.user_id
                    != command@.user_id || m@.role != MembershipRole::Member {
                    r == Err::<AddMemberResult, AddMemberError>(AddMemberError::InvalidStoreResult)
                } else {
                    r matches Ok(result) && result@.membership == m@ && result@.events == seq![
                        ChatEventView::MemberAdded(m@),
                    ]
                },
            },
    {
        let membership = match stored {
            Ok(m) => m,
            Err(e) => return Err(e),
        };
        if membership.conversation_id().get() != command.conversation_id.get()
            || membership.user_id().get() != command.user_id.get() {
            return Err(AddMemberError::InvalidStoreResult);
        }
        AddMemberResult::new(membership)
    }
}

} // verus!
