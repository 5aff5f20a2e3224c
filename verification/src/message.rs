use std::time::SystemTime;

use vstd::prelude::*;

use crate::id::{ConversationId, MessageId, UserId};
use crate::text::{all_white_space, chars_of, lemma_trim_empty_iff_white, only_white_space, trim};

verus! {

/// Maximum number of Unicode scalar values accepted in a message body.
pub const MAX_MESSAGE_BODY_CHARS: usize = 4_000;

/// Describes why a message body is invalid.
#[derive(Clone, Copy, Debug, PartialEq, Eq, Structural)]
pub enum MessageBodyError {
    /// The body contains no non-whitespace characters.
    Empty,
    /// The body exceeds the configured character limit.
    TooLong {
        /// Maximum accepted character count.
        max_chars: usize,
        /// Character count of the rejected body.
        actual_chars: usize,
    },
}

/// What validating `value` as a message body yields: the unchanged text, or
/// the first rule it breaks.
pub open spec fn message_body_check(value: Seq<char>) -> Result<Seq<char>, MessageBodyError> {
    if trim(value).len() == 0 {
        Err(MessageBodyError::Empty)
    } else if value.len() > MAX_MESSAGE_BODY_CHARS {
        Err(
            MessageBodyError::TooLong {
                max_chars: MAX_MESSAGE_BODY_CHARS,
                actual_chars: value.len() as usize,
            },
        )
    } else {
        Ok(value)
    }
}

/// A message body is kept exactly as written, so a valid body validates to
/// itself: what the store writes is read back unchanged.
pub proof fn lemma_message_body_check_is_stable(value: Seq<char>)
    ensures
        message_body_check(value) matches Ok(body) ==> body == value && message_body_check(body)
            == Ok::<Seq<char>, MessageBodyError>(body),
{
}

/// A validated chat message body.
#[derive(Debug, PartialEq, Eq)]
pub struct MessageBody {
    value: String,
}

impl View for MessageBody {
    type V = Seq<char>;

    closed spec fn view(&self) -> Seq<char> {
        self.value@
    }
}

impl Clone for MessageBody {
    fn clone(&self) -> (r: Self)
        ensures
            r == *self,
    {
        MessageBody { value: self.value.clone() }
    }
}

impl MessageBody {
    /// Validates `value` without changing it: rejects a body that is only
    /// white space or longer than `MAX_MESSAGE_BODY_CHARS` characters.
    pub fn parse(value: &str) -> (r: Result<Self, MessageBodyError>)
        ensures
            r is Ok <==> message_body_check(value@) is Ok,
            r matches Ok(body) ==> message_body_check(value@) == Ok::<
                Seq<char>,
                MessageBodyError,
            >(body@),
            r matches Err(e) ==> message_body_check(value@) == Err::<Seq<char>, MessageBodyError>(
                e,
            ),
    {
        let chars = chars_of(value);
        proof {
            lemma_trim_empty_iff_white(value@);
        }
        if only_white_space(&chars) {
            return Err(MessageBodyError::Empty);
        }
        let actual_chars = chars.len();
        if actual_chars > MAX_MESSAGE_BODY_CHARS {
            return Err(MessageBodyError::TooLong { max_chars: MAX_MESSAGE_BODY_CHARS, actual_chars });
        }
        Ok(MessageBody { value: value.to_owned() })
    }

    /// Returns the body as a string slice.
    pub fn as_str(&self) -> (r: &str)
        ensures
            r@ == self@,
    {
        self.value.as_str()
    }

    /// Consumes the body and returns its string.
    pub fn into_inner(self) -> (r: String)
        ensures
            r@ == self@,
    {
        self.value
    }

    /// Whether two bodies hold the same text.
    pub fn same_text(&self, other: &MessageBody) -> (r: bool)
        ensures
            r == (self@ == other@),
    {
        self.value == other.value
    }
}

impl AsRef<str> for MessageBody {
    fn as_ref(&self) -> (r: &str)
        ensures
            r@ == self@,
    {
        self.value.as_str()
    }
}

impl TryFrom<&str> for MessageBody {
    type Error = MessageBodyError;

    /// Same as [`MessageBody::parse`].
    fn try_from(value: &str) -> (r: Result<Self, Self::Error>)
        ensures
            r is Ok <==> message_body_check(value@) is Ok,
            r matches Ok(v) ==> message_body_check(value@) == Ok::<Seq<char>, MessageBodyError>(v@),
            r matches Err(e) ==> message_body_check(value@) == Err::<Seq<char>, MessageBodyError>(e),
    {
        MessageBody::parse(value)
    }
}

impl TryFrom<String> for MessageBody {
    type Error = MessageBodyError;

    /// Same as [`MessageBody::parse`] on the string's text.
    fn try_from(value: String) -> (r: Result<Self, Self::Error>)
        ensures
            r is Ok <==> message_body_check(value@) is Ok,
            r matches Ok(v) ==> message_body_check(value@) == Ok::<Seq<char>, MessageBodyError>(v@),
            r matches Err(e) ==> message_body_check(value@) == Err::<Seq<char>, MessageBodyError>(e),
    {
        MessageBody::parse(value.as_str())
    }
}

/// No separate spec function of the conversion is claimed: the `ensures` of
/// each `try_from` above, the same as those of `MessageBody::parse`, state the result.
impl vstd::std_specs::convert::TryFromSpecImpl<&str> for MessageBody {
    open spec fn obeys_try_from_spec() -> bool {
        false
    }

    open spec fn try_from_spec(v: &str) -> Result<Self, MessageBodyError> {
        arbitrary()
    }
}

impl vstd::std_specs::convert::TryFromSpecImpl<String> for MessageBody {
    open spec fn obeys_try_from_spec() -> bool {
        false
    }

    open spec fn try_from_spec(v: String) -> Result<Self, MessageBodyError> {
        arbitrary()
    }
}

/// The parts of a message that contracts speak of.
pub struct MessageView {
    pub id: i64,
    pub conversation_id: i64,
    pub author_id: i64,
    pub body: Seq<char>,
    pub created_at: SystemTime,
}

/// A message stored by the chat application.
#[derive(Debug, PartialEq, Eq)]
pub struct Message {
    id: MessageId,
    conversation_id: ConversationId,
    author_id: UserId,
    body: MessageBody,
    created_at: SystemTime,
}

impl View for Message {
    type V = MessageView;

    closed spec fn view(&self) -> MessageView {
        MessageView {
            id: self.id@,
            conversation_id: self.conversation_id@,
            author_id: self.author_id@,
            body: self.body@,
            created_at: self.created_at,
        }
    }
}

impl Clone for Message {
    fn clone(&self) -> (r: Self)
        ensures
            r == *self,
    {
        Message {
            id: self.id,
            conversation_id: self.conversation_id,
            author_id: self.author_id,
            body: self.body.clone(),
            created_at: self.created_at,
        }
    }
}

impl Message {
    /// Creates a message from values assigned by a store implementation.
    pub fn new(
        id: MessageId,
        conversation_id: ConversationId,
        author_id: UserId,
        body: MessageBody,
        created_at: SystemTime,
    ) -> (r: Self)
        ensures
            r@ == (MessageView {
                id: id@,
                conversation_id: conversation_id@,
                author_id: author_id@,
                body: body@,
                created_at,
            }),
    {
        Message { id, conversation_id, author_id, body, created_at }
    }

    /// Returns the message ID.
    pub fn id(&self) -> (r: MessageId)
        ensures
            r@ == self@.id,
    {
        self.id
    }

    /// Returns the conversation containing the message.
    pub fn conversation_id(&self) -> (r: ConversationId)
        ensures
            r@ == self@.conversation_id,
    {
        self.conversation_id
    }

    /// Returns the author of the message.
    pub fn author_id(&self) -> (r: UserId)
        ensures
            r@ == self@.author_id,
    {
        self.author_id
    }

    /// Returns the validated message body.
    pub fn body(&self) -> (r: &MessageBody)
        ensures
            r@ == self@.body,
    {
        &self.body
    }

    /// Returns when the message was created.
    pub fn created_at(&self) -> (r: &SystemTime)
        ensures
            *r == self@.created_at,
    {
        &self.created_at
    }
}

/// The parts of a message awaiting store-assigned metadata.
pub struct NewMessageView {
    pub conversation_id: i64,
    pub author_id: i64,
    pub body: Seq<char>,
}

/// A validated message awaiting store-assigned metadata.
#[derive(Debug, PartialEq, Eq)]
pub struct NewMessage {
    conversation_id: ConversationId,
    author_id: UserId,
    body: MessageBody,
}

impl View for NewMessage {
    type V = NewMessageView;

    closed spec fn view(&self) -> NewMessageView {
        NewMessageView {
            conversation_id: self.conversation_id@,
            author_id: self.author_id@,
            body: self.body@,
        }
    }
}

impl Clone for NewMessage {
    fn clone(&self) -> (r: Self)
        ensures
            r == *self,
    {
        NewMessage {
            conversation_id: self.conversation_id,
            author_id: self.author_id,
            body: self.body.clone(),
        }
    }
}

impl NewMessage {
    pub(crate) fn new(conversation_id: ConversationId, author_id: UserId, body: MessageBody) -> (r:
        Self)
        ensures
            r@ == (NewMessageView {
                conversation_id: conversation_id@,
                author_id: author_id@,
                body: body@,
            }),
    {
        NewMessage { conversation_id, author_id, body }
    }

    /// Returns the target conversation.
    pub fn conversation_id(&self) -> (r: ConversationId)
        ensures
            r@ == self@.conversation_id,
    {
        self.conversation_id
    }

    /// Returns the author requesting the post.
    pub fn author_id(&self) -> (r: UserId)
        ensures
            r@ == self@.author_id,
    {
        self.author_id
    }

    /// Returns the validated body.
    pub fn body(&self) -> (r: &MessageBody)
        ensures
            r@ == self@.body,
    {
        &self.body
    }
}

} // verus!
