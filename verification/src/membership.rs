use std::time::SystemTime;

use vstd::prelude::*;

use crate::id::{ConversationId, UserId};

verus! {

/// A user's authority within a conversation.
#[derive(Clone, Copy, Debug, PartialEq, Eq, Hash, Structural)]
pub enum MembershipRole {
    /// May manage membership and post messages.
    Owner,
    /// May read and post messages.
    Member,
}

/// The parts of a membership that contracts speak of.
pub struct MembershipView {
    pub conversation_id: i64,
    pub user_id: i64,
    pub role: MembershipRole,
    pub joined_at: SystemTime,
}

/// A user's membership in a conversation.
#[derive(Debug, PartialEq, Eq)]
pub struct Membership {
    conversation_id: ConversationId,
    user_id: UserId,
    role: MembershipRole,
    joined_at: SystemTime,
}

impl View for Membership {
    type V = MembershipView;

    closed spec fn view(&self) -> MembershipView {
        MembershipView {
            conversation_id: self.conversation_id@,
            user_id: self.user_id@,
            role: self.role,
            joined_at: self.joined_at,
        }
    }
}

impl Clone for Membership {
    fn clone(&self) -> (r: Self)
        ensures
            r == *self,
    {
        Membership {
            conversation_id: self.conversation_id,
            user_id: self.user_id,
            role: self.role,
            joined_at: self.joined_at,
        }
    }
}

impl Membership {
    /// Creates a membership from values assigned by a store implementation.
    pub fn new(
        conversation_id: ConversationId,
        user_id: UserId,
        role: MembershipRole,
        joined_at: SystemTime,
    ) -> (r: Self)
        ensures
            r@ == (MembershipView {
                conversation_id: conversation_id@,
                user_id: user_id@,
                role,
                joined_at,
            }),
    {
        Membership { conversation_id, user_id, role, joined_at }
    }

    /// Returns the conversation ID.
    pub fn conversation_id(&self) -> (r: ConversationId)
        ensures
            r@ == self@.conversation_id,
    {
        self.conversation_id
    }

    /// Returns the member's user ID.
    pub fn user_id(&self) -> (r: UserId)
        ensures
            r@ == self@.user_id,
    {
        self.user_id
    }

    /// Returns the member's role.
    pub fn role(&self) -> (r: MembershipRole)
        ensures
            r == self@.role,
    {
        self.role
    }

    /// Returns when the user joined.
    pub fn joined_at(&self) -> (r: &SystemTime)
        ensures
            *r == self@.joined_at,
    {
        &self.joined_at
    }
}

/// The actor, conversation and user named by a membership change.
pub struct MembershipChangeView {
    pub actor_id: i64,
    pub conversation_id: i64,
    pub user_id: i64,
}

/// Values required to atomically add a conversation member.
#[derive(Clone, Copy, Debug, PartialEq, Eq, Structural)]
pub struct NewMembership {
    actor_id: UserId,
    conversation_id: ConversationId,
    user_id: UserId,
}

impl View for NewMembership {
    type V = MembershipChangeView;

    closed spec fn view(&self) -> MembershipChangeView {
        MembershipChangeView {
            actor_id: self.actor_id@,
            conversation_id: self.conversation_id@,
            user_id: self.user_id@,
        }
    }
}

impl NewMembership {
    pub(crate) fn new(actor_id: UserId, conversation_id: ConversationId, user_id: UserId) -> (r:
        Self)
        ensures
            r@ == (MembershipChangeView {
                actor_id: actor_id@,
                conversation_id: conversation_id@,
                user_id: user_id@,
            }),
    {
        NewMembership { actor_id, conversation_id, user_id }
    }

    /// Returns the user requesting the operation.
    pub fn actor_id(self) -> (r: UserId)
        ensures
            r@ == self@.actor_id,
    {
        self.actor_id
    }

    /// Returns the target conversation.
    pub fn conversation_id(self) -> (r: ConversationId)
        ensures
            r@ == self@.conversation_id,
    {
        self.conversation_id
    }

    /// Returns the user to add.
    pub fn user_id(self) -> (r: UserId)
        ensures
            r@ == self@.user_id,
    {
        self.user_id
    }
}

/// Values required to atomically remove a conversation member.
#[derive(Clone, Copy, Debug, PartialEq, Eq, Structural)]
pub struct MembershipRemoval {
    actor_id: UserId,
    conversation_id: ConversationId,
    user_id: UserId,
}

impl View for MembershipRemoval {
    type V = MembershipChangeView;

    closed spec fn view(&self) -> MembershipChangeView {
        MembershipChangeView {
            actor_id: self.actor_id@,
            conversation_id: self.conversation_id@,
            user_id: self.user_id@,
        }
    }
}

impl MembershipRemoval {
    pub(crate) fn new(actor_id: UserId, conversation_id: ConversationId, user_id: UserId) -> (r:
        Self)
        ensures
            r@ == (MembershipChangeView {
                actor_id: actor_id@,
                conversation_id: conversation_id@,
                user_id: user_id@,
            }),
    {
        MembershipRemoval { actor_id, conversation_id, user_id }
    }

    /// Returns the user requesting the operation.
    pub fn actor_id(self) -> (r: UserId)
        ensures
            r@ == self@.actor_id,
    {
        self.actor_id
    }

    /// Returns the target conversation.
    pub fn conversation_id(self) -> (r: ConversationId)
        ensures
            r@ == self@.conversation_id,
    {
        self.conversation_id
    }

    /// Returns the user to remove.
    pub fn user_id(self) -> (r: UserId)
        ensures
            r@ == self@.user_id,
    {
        self.user_id
    }
}

} // verus!
