use vstd::prelude::*;

use crate::add_member::{MemberCommandView, MembershipResultView};
use crate::chat::Chat;
use crate::event::{events_view, ChatEvent, ChatEventView};
use crate::id::{ConversationId, UserId};
use crate::membership::{Membership, MembershipRemoval, MembershipRole};

verus! {

/// Requests removing a user from a conversation.
#[derive(Clone, Copy, Debug, PartialEq, Eq, Structural)]
pub struct RemoveMember {
    conversation_id: ConversationId,
    user_id: UserId,
}

impl View for RemoveMember {
    type V = MemberCommandView;

    closed spec fn view(&self) -> MemberCommandView {
        MemberCommandView { conversation_id: self.conversation_id@, user_id: self.user_id@ }
    }
}

impl RemoveMember {
    /// Creates a remove-member command.
    pub fn new(conversation_id: ConversationId, user_id: UserId) -> (r: Self)
        ensures
            r@ == (MemberCommandView { conversation_id: conversation_id@, user_id: user_id@ }),
    {
        RemoveMember { conversation_id, user_id }
    }

    /// Returns the target conversation.
    pub fn conversation_id(self) -> (r: ConversationId)
        ensures
            r@ == self@.conversation_id,
    {
        self.conversation_id
    }

    /// Returns the user to remove.
    pub fn user_id(self) -> (r: UserId)
        ensures
            r@ == self@.user_id,
    {
        self.user_id
    }
}

/// Describes why removing a member failed.
#[derive(Clone, Copy, Debug, PartialEq, Eq, Structural)]
pub enum RemoveMemberError {
    /// The target conversation does not exist.
    ConversationNotFound,
    /// The target user is not a member.
    NotMember,
    /// The actor may not remove the target member.
    NotAuthorized,
    /// The owner cannot leave or be removed.
    OwnerCannotLeave,
    /// The store returned inconsistent membership state.
    InvalidStoreResult,
    /// Persistence was temporarily unavailable.
    StoreUnavailable,
}

/// The result of removing a member.
#[derive(Clone, Debug, PartialEq, Eq)]
pub struct RemoveMemberResult {
    membership: Membership,
    events: Vec<ChatEvent>,
}

impl View for RemoveMemberResult {
    type V = MembershipResultView;

    closed spec fn view(&self) -> MembershipResultView {
        MembershipResultView { membership: self.membership@, events: events_view(self.events@) }
    }
}

impl RemoveMemberResult {
    fn new(membership: Membership) -> (r: Self)
        ensures
            r@.membership == membership@,
            r@.events == seq![ChatEventView::MemberRemoved(membership@)],
    {
        let events = vec![ChatEvent::MemberRemoved { membership: membership.clone() }];
        let r = RemoveMemberResult { membership, events };
        assert(r@.events =~= seq![ChatEventView::MemberRemoved(r@.membership)]);
        r
    }

    /// Returns the removed membership.
    pub fn membership(&self) -> (r: &Membership)
        ensures
            r@ == self@.membership,
    {
        &self.membership
    }

    /// Returns the events produced after persistence succeeded.
    pub fn events(&self) -> (r: &[ChatEvent])
        ensures
            events_view(r@) == self@.events,
    {
        self.events.as_slice()
    }
}

impl<S> Chat<S> {
    /// Builds the removal request handed to the store.
    pub fn remove_member_request(&self, actor_id: UserId, command: RemoveMember) -> (r:
        MembershipRemoval)
        ensures
            r@.actor_id == actor_id@,
            r@.conversation_id == command@.conversation_id,
            r@.user_id == command@.user_id,
    {
        MembershipRemoval::new(actor_id, command.conversation_id, command.user_id)
    }

    /// Checks what the store answered: a store error is passed on; a
    /// membership of another conversation or user, or one that is not a plain
    /// member, is an invalid store result; otherwise the result carries one
    /// `MemberRemoved` event.
    pub fn remove_member_outcome(
        &self,
        command: RemoveMember,
        stored: Result<Membership, RemoveMemberError>,
    ) -> (r: Result<RemoveMemberResult, RemoveMemberError>)
        ensures
            match stored {
                Err(e) => r == Err::<RemoveMemberResult, RemoveMemberError>(e),
                Ok(m) => if m@.conversation_id != command@.conversation_id || m@.user_id
                    != command@.user_id || m@.role != MembershipRole::Member {
                    r == Err::<RemoveMemberResult, RemoveMemberError>(
                        RemoveMemberError::InvalidStoreResult,
                    )
                } else {
                    r matches Ok(result) && result@.membership == m@ && result@.events == seq![
                        ChatEventView::MemberRemoved(m@),
                    ]
                },
            },
    {
        let membership = match stored {
            Ok(m) => m,
            Err(e) => return Err(e),
        };
        if membership.conversation_id().get() != command.conversation_id.get()
            || membership.user_id().get() != command.user_id.get() || membership.role()
            != MembershipRole::Member {
            return Err(RemoveMemberError::InvalidStoreResult);
        }
        Ok(RemoveMemberResult::new(membership))
    }
}

} // verus!
