use std::time::SystemTime;

use vstd::prelude::*;

use crate::id::{ConversationId, UserId};
use crate::membership::{Membership, MembershipView};
use crate::text::{lemma_trim_idempotent, chars_of, contains_control, has_control, string_of, trim, trim_chars};

verus! {

/// Maximum number of Unicode scalar values accepted in a conversation title.
pub const MAX_CONVERSATION_TITLE_CHARS: usize = 100;

/// Describes why a conversation title is invalid.
#[derive(Clone, Copy, Debug, PartialEq, Eq, Structural)]
pub enum ConversationTitleError {
    /// The title contains no non-whitespace characters.
    Empty,
    /// The title contains a control character.
    ContainsControlCharacter,
    /// The title exceeds the configured character limit.
    TooLong {
        /// Maximum accepted character count.
        max_chars: usize,
        /// Character count of the rejected title.
        actual_chars: usize,
    },
}

/// What validating `value` as a title yields: the trimmed text, or the first
/// rule it breaks.
pub open spec fn conversation_title_check(value: Seq<char>) -> Result<
    Seq<char>,
    ConversationTitleError,
> {
    let t = trim(value);
    if t.len() == 0 {
        Err(ConversationTitleError::Empty)
    } else if has_control(t) {
        Err(ConversationTitleError::ContainsControlCharacter)
    } else if t.len() > MAX_CONVERSATION_TITLE_CHARS {
        Err(
            ConversationTitleError::TooLong {
                max_chars: MAX_CONVERSATION_TITLE_CHARS,
                actual_chars: t.len() as usize,
            },
        )
    } else {
        Ok(t)
    }
}

/// A conversation title as validated is itself a valid title: what the
/// store writes is read back unchanged.
pub proof fn lemma_conversation_title_check_is_stable(value: Seq<char>)
    ensures
        conversation_title_check(value) matches Ok(title) ==> conversation_title_check(title)
            == Ok::<Seq<char>, ConversationTitleError>(title),
{
    lemma_trim_idempotent(value);
}

/// A validated conversation title.
#[derive(Debug, PartialEq, Eq)]
pub struct ConversationTitle {
    value: String,
}

impl View for ConversationTitle {
    type V = Seq<char>;

    closed spec fn view(&self) -> Seq<char> {
        self.value@
    }
}

impl Clone for ConversationTitle {
    fn clone(&self) -> (r: Self)
        ensures
            r == *self,
    {
        ConversationTitle { value: self.value.clone() }
    }
}

impl ConversationTitle {
    /// Validates `value`: trims surrounding white space, then rejects an empty
    /// title, a control character, or more than
    /// `MAX_CONVERSATION_TITLE_CHARS` characters.
    pub fn parse(value: &str) -> (r: Result<Self, ConversationTitleError>)
        ensures
            r is Ok <==> conversation_title_check(value@) is Ok,
            r matches Ok(title) ==> conversation_title_check(value@) == Ok::<
                Seq<char>,
                ConversationTitleError,
            >(title@),
            r matches Err(e) ==> conversation_title_check(value@) == Err::<
                Seq<char>,
                ConversationTitleError,
            >(e),
    {
        let chars = chars_of(value);
        let trimmed = trim_chars(&chars);
        if trimmed.len() == 0 {
            return Err(ConversationTitleError::Empty);
        }
        if contains_control(&trimmed) {
            return Err(ConversationTitleError::ContainsControlCharacter);
        }
        let actual_chars = trimmed.len();
        if actual_chars > MAX_CONVERSATION_TITLE_CHARS {
            return Err(
                ConversationTitleError::TooLong {
                    max_chars: MAX_CONVERSATION_TITLE_CHARS,
                    actual_chars,
                },
            );
        }
        Ok(ConversationTitle { value: string_of(&trimmed) })
    }

    /// Returns the title as a string slice.
    pub fn as_str(&self) -> (r: &str)
        ensures
            r@ == self@,
    {
        self.value.as_str()
    }

    /// Consumes the title and returns its string.
    pub fn into_inner(self) -> (r: String)
        ensures
            r@ == self@,
    {
        self.value
    }

    /// Whether two titles hold the same text.
    pub fn same_text(&self, other: &ConversationTitle) -> (r: bool)
        ensures
            r == (self@ == other@),
    {
        self.value == other.value
    }
}

impl AsRef<str> for ConversationTitle {
    fn as_ref(&self) -> (r: &str)
        ensures
            r@ == self@,
    {
        self.value.as_str()
    }
}

impl TryFrom<&str> for ConversationTitle {
    type Error = ConversationTitleError;

    /// Same as [`ConversationTitle::parse`].
    fn try_from(value: &str) -> (r: Result<Self, Self::Error>)
        ensures
            r is Ok <==> conversation_title_check(value@) is Ok,
            r matches Ok(v) ==> conversation_title_check(value@) == Ok::<Seq<char>, ConversationTitleError>(v@),
            r matches Err(e) ==> conversation_title_check(value@) == Err::<Seq<char>, ConversationTitleError>(e),
    {
        ConversationTitle::parse(value)
    }
}

impl TryFrom<String> for ConversationTitle {
    type Error = ConversationTitleError;

    /// Same as [`ConversationTitle::parse`] on the string's text.
    fn try_from(value: String) -> (r: Result<Self, Self::Error>)
        ensures
            r is Ok <==> conversation_title_check(value@) is Ok,
            r matches Ok(v) ==> conversation_title_check(value@) == Ok::<Seq<char>, ConversationTitleError>(v@),
            r matches Err(e) ==> conversation_title_check(value@) == Err::<Seq<char>, ConversationTitleError>(e),
    {
        ConversationTitle::parse(value.as_str())
    }
}

/// No separate spec function of the conversion is claimed: the `ensures` of
/// each `try_from` above, the same as those of `ConversationTitle::parse`, state the result.
impl vstd::std_specs::convert::TryFromSpecImpl<&str> for ConversationTitle {
    open spec fn obeys_try_from_spec() -> bool {
        false
    }

    open spec fn try_from_spec(v: &str) -> Result<Self, ConversationTitleError> {
        arbitrary()
    }
}

impl vstd::std_specs::convert::TryFromSpecImpl<String> for ConversationTitle {
    open spec fn obeys_try_from_spec() -> bool {
        false
    }

    open spec fn try_from_spec(v: String) -> Result<Self, ConversationTitleError> {
        arbitrary()
    }
}

/// The parts of a conversation that contracts speak of.
pub struct ConversationView {
    pub id: i64,
    pub title: Seq<char>,
    pub created_at: SystemTime,
}

/// A conversation containing users and messages.
#[derive(Debug, PartialEq, Eq)]
pub struct Conversation {
    id: ConversationId,
    title: ConversationTitle,
    created_at: SystemTime,
}

impl View for Conversation {
    type V = ConversationView;

    closed spec fn view(&self) -> ConversationView {
        ConversationView { id: self.id@, title: self.title@, created_at: self.created_at }
    }
}

impl Clone for Conversation {
    fn clone(&self) -> (r: Self)
        ensures
            r == *self,
    {
        Conversation { id: self.id, title: self.title.clone(), created_at: self.created_at }
    }
}

impl Conversation {
    /// Creates a conversation from values assigned by a store implementation.
    pub fn new(id: ConversationId, title: ConversationTitle, created_at: SystemTime) -> (r: Self)
        ensures
            r@ == (ConversationView { id: id@, title: title@, created_at }),
    {
        Conversation { id, title, created_at }
    }

    /// Returns the conversation ID.
    pub fn id(&self) -> (r: ConversationId)
        ensures
            r@ == self@.id,
    {
        self.id
    }

    /// Returns the title.
    pub fn title(&self) -> (r: &ConversationTitle)
        ensures
            r@ == self@.title,
    {
        &self.title
    }

    /// Returns when the conversation was created.
    pub fn created_at(&self) -> (r: &SystemTime)
        ensures
            *r == self@.created_at,
    {
        &self.created_at
    }
}

/// The creator and title of a conversation awaiting store-assigned metadata.
pub struct NewConversationView {
    pub creator_id: i64,
    pub title: Seq<char>,
}

/// A validated conversation awaiting store-assigned metadata.
#[derive(Debug, PartialEq, Eq)]
pub struct NewConversation {
    creator_id: UserId,
    title: ConversationTitle,
}

impl View for NewConversation {
    type V = NewConversationView;

    closed spec fn view(&self) -> NewConversationView {
        NewConversationView { creator_id: self.creator_id@, title: self.title@ }
    }
}

impl Clone for NewConversation {
    fn clone(&self) -> (r: Self)
        ensures
            r == *self,
    {
        NewConversation { creator_id: self.creator_id, title: self.title.clone() }
    }
}

impl NewConversation {
    pub(crate) fn new(creator_id: UserId, title: ConversationTitle) -> (r: Self)
        ensures
            r@ == (NewConversationView { creator_id: creator_id@, title: title@ }),
    {
        NewConversation { creator_id, title }
    }

    /// Returns the creator, who must become the owner.
    pub fn creator_id(&self) -> (r: UserId)
        ensures
            r@ == self@.creator_id,
    {
        self.creator_id
    }

    /// Returns the requested title.
    pub fn title(&self) -> (r: &ConversationTitle)
        ensures
            r@ == self@.title,
    {
        &self.title
    }
}

/// The conversation and owner membership created together.
pub struct CreatedConversationView {
    pub conversation: ConversationView,
    pub creator_membership: MembershipView,
}

/// Values atomically created for a new conversation.
#[derive(Debug, PartialEq, Eq)]
pub struct CreatedConversation {
    conversation: Conversation,
    creator_membership: Membership,
}

impl View for CreatedConversation {
    type V = CreatedConversationView;

    closed spec fn view(&self) -> CreatedConversationView {
        CreatedConversationView {
            conversation: self.conversation@,
            creator_membership: self.creator_membership@,
        }
    }
}

impl Clone for CreatedConversation {
    fn clone(&self) -> (r: Self)
        ensures
            r == *self,
    {
        CreatedConversation {
            conversation: self.conversation.clone(),
            creator_membership: self.creator_membership.clone(),
        }
    }
}

impl CreatedConversation {
    /// Creates the atomic store result.
    pub fn new(conversation: Conversation, creator_membership: Membership) -> (r: Self)
        ensures
            r@ == (CreatedConversationView {
                conversation: conversation@,
                creator_membership: creator_membership@,
            }),
    {
        CreatedConversation { conversation, creator_membership }
    }

    /// Returns the created conversation.
    pub fn conversation(&self) -> (r: &Conversation)
        ensures
            r@ == self@.conversation,
    {
        &self.conversation
    }

    /// Returns the creator's owner membership.
    pub fn creator_membership(&self) -> (r: &Membership)
        ensures
            r@ == self@.creator_membership,
    {
        &self.creator_membership
    }

    /// Consumes the result and returns its parts.
    pub fn into_parts(self) -> (r: (Conversation, Membership))
        ensures
            r.0@ == self@.conversation,
            r.1@ == self@.creator_membership,
    {
        (self.conversation, self.creator_membership)
    }
}

} // verus!
