use vstd::prelude::*;

use crate::chat::Chat;
use crate::id::{ConversationId, MessageId};
use crate::message::Message;

verus! {

/// Describes why reading one message failed.
#[derive(Clone, Copy, Debug, PartialEq, Eq, Structural)]
pub enum GetMessageError {
    /// The message does not exist or is not visible to the actor.
    NotFound,
    /// The store returned a message inconsistent with the request.
    InvalidStoreResult,
    /// Persistence was temporarily unavailable.
    StoreUnavailable,
}

impl<S> Chat<S> {
    /// Checks what the store answered for one message: a store error is passed
    /// on, a message with another ID or conversation is an invalid store
    /// result, and otherwise the message is returned unchanged.
    pub fn get_message_outcome(
        &self,
        conversation_id: ConversationId,
        message_id: MessageId,
        stored: Result<Message, GetMessageError>,
    ) -> (r: Result<Message, GetMessageError>)
        ensures
            match stored {
                Err(e) => r == Err::<Message, GetMessageError>(e),
                Ok(m) => if m@.id != message_id@ || m@.conversation_id != conversation_id@ {
                    r == Err::<Message, GetMessageError>(GetMessageError::InvalidStoreResult)
                } else {
                    r == Ok::<Message, GetMessageError>(m)
                },
            },
    {
        let message = match stored {
            Ok(m) => m,
            Err(e) => return Err(e),
        };
        if message.id().get() != message_id.get() || message.conversation_id().get()
            != conversation_id.get() {
            return Err(GetMessageError::InvalidStoreResult);
        }
        Ok(message)
    }
}

} // verus!
