use vstd::prelude::*;

use crate::chat::Chat;
use crate::event::{events_view, ChatEvent, ChatEventView};
use crate::id::{ConversationId, UserId};
use crate::message::{message_body_check, Message, MessageBody, MessageBodyError, MessageView, NewMessage};

verus! {

/// The target conversation and raw body of a post-message command.
pub struct PostMessageView {
    pub conversation_id: i64,
    pub body: Seq<char>,
}

/// Requests a new message in a conversation.
#[derive(Clone, Debug, PartialEq, Eq)]
pub struct PostMessage {
    conversation_id: ConversationId,
    body: String,
}

impl View for PostMessage {
    type V = PostMessageView;

    closed spec fn view(&self) -> PostMessageView {
        PostMessageView { conversation_id: self.conversation_id@, body: self.body@ }
    }
}

impl PostMessage {
    /// Creates a post-message command.
    pub fn new(conversation_id: ConversationId, body: &str) -> (r: Self)
        ensures
            r@ == (PostMessageView { conversation_id: conversation_id@, body: body@ }),
    {
        PostMessage { conversation_id, body: body.to_owned() }
    }

    /// Returns the target conversation.
    pub fn conversation_id(&self) -> (r: ConversationId)
        ensures
            r@ == self@.conversation_id,
    {
        self.conversation_id
    }

    /// Returns the unvalidated message body.
    pub fn body(&self) -> (r: &str)
        ensures
            r@ == self@.body,
    {
        self.body.as_str()
    }
}

/// Describes why a post-message request failed.
#[derive(Clone, Copy, Debug, PartialEq, Eq, Structural)]
pub enum PostMessageError {
    /// The supplied body is invalid.
    InvalidBody(MessageBodyError),
    /// The target conversation does not exist.
    ConversationNotFound,
    /// The author is not a member of the target conversation.
    AuthorNotMember,
    /// The store returned a message inconsistent with the request.
    InvalidStoreResult,
    /// Persistence was temporarily unavailable.
    StoreUnavailable,
}

impl From<MessageBodyError> for PostMessageError {
    fn from(error: MessageBodyError) -> (r: Self) {
        PostMessageError::InvalidBody(error)
    }
}

impl vstd::std_specs::convert::FromSpecImpl<MessageBodyError> for PostMessageError {
    open spec fn obeys_from_spec() -> bool {
        true
    }

    open spec fn from_spec(v: MessageBodyError) -> Self {
        PostMessageError::InvalidBody(v)
    }
}

/// The stored message and events of a successful post.
pub struct PostMessageResultView {
    pub message: MessageView,
    pub events: Seq<ChatEventView>,
}

/// The result of posting a message.
#[derive(Clone, Debug, PartialEq, Eq)]
pub struct PostMessageResult {
    message: Message,
    events: Vec<ChatEvent>,
}

impl View for PostMessageResult {
    type V = PostMessageResultView;

    closed spec fn view(&self) -> PostMessageResultView {
        PostMessageResultView { message: self.message@, events: events_view(self.events@) }
    }
}

impl PostMessageResult {
    fn new(message: Message) -> (r: Self)
        ensures
            r@.message == message@,
            r@.events == seq![ChatEventView::MessagePosted(message@)],
    {
        let events = vec![ChatEvent::MessagePosted { message: message.clone() }];
        let r = PostMessageResult { message, events };
        assert(r@.events =~= seq![ChatEventView::MessagePosted(r@.message)]);
        r
    }

    /// Returns the stored message.
    pub fn message(&self) -> (r: &Message)
        ensures
            r@ == self@.message,
    {
        &self.message
    }

    /// Returns the events produced after persistence succeeded.
    pub fn events(&self) -> (r: &[ChatEvent])
        ensures
            events_view(r@) == self@.events,
    {
        self.events.as_slice()
    }

    /// Consumes the result and returns its parts.
    pub fn into_parts(self) -> (r: (Message, Vec<ChatEvent>))
        ensures
            r.0@ == self@.message,
            events_view(r.1@) == self@.events,
    {
        (self.message, self.events)
    }
}

impl<S> Chat<S> {
    /// Validates a post-message command into the message handed to the store.
    pub fn post_message_request(&self, author_id: UserId, command: &PostMessage) -> (r: Result<
        NewMessage,
        PostMessageError,
    >)
        ensures
            match message_body_check(command@.body) {
                Ok(body) => r matches Ok(request) && request@.body == body
                    && request@.author_id == author_id@ && request@.conversation_id
                    == command@.conversation_id,
                Err(e) => r == Err::<NewMessage, PostMessageError>(
                    PostMessageError::InvalidBody(e),
                ),
            },
    {
        match MessageBody::parse(command.body.as_str()) {
            Ok(body) => Ok(NewMessage::new(command.conversation_id, author_id, body)),
            Err(e) => Err(PostMessageError::InvalidBody(e)),
        }
    }

    /// Checks what the store answered for `request`: a store error is passed
    /// on; a message for another conversation, author or body is an invalid
    /// store result; otherwise the result carries one `MessagePosted` event.
    pub fn post_message_outcome(&self, request: &NewMessage, stored: Result<Message, PostMessageError>) -> (r:
        Result<PostMessageResult, PostMessageError>)
        ensures
            match stored {
                Err(e) => r == Err::<PostMessageResult, PostMessageError>(e),
                Ok(m) => if m@.conversation_id != request@.conversation_id || m@.author_id
                    != request@.author_id || m@.body != request@.body {
                    r == Err::<PostMessageResult, PostMessageError>(
                        PostMessageError::InvalidStoreResult,
                    )
                } else {
                    r matches Ok(result) && result@.message == m@ && result@.events == seq![
                        ChatEventView::MessagePosted(m@),
                    ]
                },
            },
    {
        let message = match stored {
            Ok(m) => m,
            Err(e) => return Err(e),
        };
        if message.conversation_id().get() != request.conversation_id().get()
            || message.author_id().get() != request.author_id().get() || !message.body().same_text(
            request.body(),
        ) {
            return Err(PostMessageError::InvalidStoreResult);
        }
        Ok(PostMessageResult::new(message))
    }
}

} // verus!
