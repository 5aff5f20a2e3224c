use vstd::prelude::*;

use crate::chat::Chat;
use crate::conversation::{Conversation, ConversationView};
use crate::id::ConversationId;
use crate::membership::MembershipRole;

verus! {

/// A conversation seen by one user, with that user's role.
pub struct ConversationEntryView {
    pub conversation: ConversationView,
    pub role: MembershipRole,
}

/// A conversation together with the requesting user's role.
#[derive(Debug, PartialEq, Eq)]
pub struct ConversationDetails {
    conversation: Conversation,
    role: MembershipRole,
}

impl View for ConversationDetails {
    type V = ConversationEntryView;

    closed spec fn view(&self) -> ConversationEntryView {
        ConversationEntryView { conversation: self.conversation@, role: self.role }
    }
}

impl Clone for ConversationDetails {
    fn clone(&self) -> (r: Self)
        ensures
            r == *self,
    {
        ConversationDetails { conversation: self.conversation.clone(), role: self.role }
    }
}

impl ConversationDetails {
    /// Creates conversation details returned by a read store.
    pub fn new(conversation: Conversation, role: MembershipRole) -> (r: Self)
        ensures
            r@ == (ConversationEntryView { conversation: conversation@, role }),
    {
        ConversationDetails { conversation, role }
    }

    /// Returns the conversation.
    pub fn conversation(&self) -> (r: &Conversation)
        ensures
            r@ == self@.conversation,
    {
        &self.conversation
    }

    /// Returns the requesting user's role.
    pub fn role(&self) -> (r: MembershipRole)
        ensures
            r == self@.role,
    {
        self.role
    }
}

/// Describes why reading a conversation failed.
#[derive(Clone, Copy, Debug, PartialEq, Eq, Structural)]
pub enum GetConversationError {
    /// The conversation does not exist or is not visible to the actor.
    NotFound,
    /// The store returned a conversation inconsistent with the request.
    InvalidStoreResult,
    /// Persistence was temporarily unavailable.
    StoreUnavailable,
}

impl<S> Chat<S> {
    /// Checks what the store answered for `conversation_id`: a store error is
    /// passed on, a different conversation is an invalid store result, and
    /// otherwise the details are returned unchanged.
    pub fn get_conversation_outcome(
        &self,
        conversation_id: ConversationId,
        stored: Result<ConversationDetails, GetConversationError>,
    ) -> (r: Result<ConversationDetails, GetConversationError>)
        ensures
            match stored {
                Err(e) => r == Err::<ConversationDetails, GetConversationError>(e),
                Ok(d) => if d@.conversation.id != conversation_id@ {
                    r == Err::<ConversationDetails, GetConversationError>(
                        GetConversationError::InvalidStoreResult,
                    )
                } else {
                    r == Ok::<ConversationDetails, GetConversationError>(d)
                },
            },
    {
        let details = match stored {
            Ok(d) => d,
            Err(e) => return Err(e),
        };
        if details.conversation().id().get() != conversation_id.get() {
            return Err(GetConversationError::InvalidStoreResult);
        }
        Ok(details)
    }
}

} // verus!
