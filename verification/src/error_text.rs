use vstd::prelude::*;

use crate::add_member::AddMemberError;
use crate::conversation::ConversationTitleError;
use crate::create_conversation::CreateConversationError;
use crate::create_user::CreateUserError;
use crate::decimal::{decimal_of, format_u64};
use crate::get_conversation::GetConversationError;
use crate::get_message::GetMessageError;
use crate::list_conversations::ListConversationsError;
use crate::list_members::{InvalidConversationMember, ListMembersError};
use crate::list_messages::ListMessagesError;
use crate::message::MessageBodyError;
use crate::post_message::PostMessageError;
use crate::remove_member::RemoveMemberError;
use crate::user::DisplayNameError;

verus! {

/// A text with two counts in it: `prefix`, the first count, `middle`, the
/// second count.
pub open spec fn counted(prefix: Seq<char>, first: usize, middle: Seq<char>, second: usize) -> Seq<char> {
    prefix + decimal_of(first as nat) + middle + decimal_of(second as nat)
}

fn counted_text(prefix: &str, first: usize, middle: &str, second: usize) -> (r: String)
    ensures
        r@ == counted(prefix@, first, middle@, second),
{
    String::from_str(prefix).concat(format_u64(first as u64).as_str()).concat(middle).concat(
        format_u64(second as u64).as_str(),
    )
}

/// The text of a display-name error.
pub open spec fn display_name_error_text(e: DisplayNameError) -> Seq<char> {
    match e {
        DisplayNameError::Empty => "a display name cannot be empty"@,
        DisplayNameError::ContainsControlCharacter => "a display name cannot contain control characters"@,
        DisplayNameError::TooLong { max_chars, actual_chars } => counted(
            "a display name can contain at most "@,
            max_chars,
            " characters, got "@,
            actual_chars,
        ),
    }
}

/// The text of a conversation-title error.
pub open spec fn title_error_text(e: ConversationTitleError) -> Seq<char> {
    match e {
        ConversationTitleError::Empty => "a conversation title cannot be empty"@,
        ConversationTitleError::ContainsControlCharacter => "a conversation title cannot contain control characters"@,
        ConversationTitleError::TooLong { max_chars, actual_chars } => counted(
            "a conversation title can contain at most "@,
            max_chars,
            " characters, got "@,
            actual_chars,
        ),
    }
}

/// The text of a message-body error.
pub open spec fn body_error_text(e: MessageBodyError) -> Seq<char> {
    match e {
        MessageBodyError::Empty => "a message body cannot be empty"@,
        MessageBodyError::TooLong { max_chars, actual_chars } => counted(
            "a message body can contain at most "@,
            max_chars,
            " characters, got "@,
            actual_chars,
        ),
    }
}

/// The text of a rejected page size.
pub open spec fn page_size_text(value: usize, max: usize) -> Seq<char> {
    counted("page size must be between 1 and "@, max, ", got "@, value)
}

impl DisplayNameError {
    /// Returns a text description of the error.
    pub fn message(&self) -> (r: String)
        ensures
            r@ == display_name_error_text(*self),
    {
        match self {
            DisplayNameError::Empty => String::from_str("a display name cannot be empty"),
            DisplayNameError::ContainsControlCharacter => String::from_str(
                "a display name cannot contain control characters",
            ),
            DisplayNameError::TooLong { max_chars, actual_chars } => counted_text(
                "a display name can contain at most ",
                *max_chars,
                " characters, got ",
                *actual_chars,
            ),
        }
    }
}

impl ConversationTitleError {
    /// Returns a text description of the error.
    pub fn message(&self) -> (r: String)
        ensures
            r@ == title_error_text(*self),
    {
        match self {
            ConversationTitleError::Empty => String::from_str("a conversation title cannot be empty"),
            ConversationTitleError::ContainsControlCharacter => String::from_str(
                "a conversation title cannot contain control characters",
            ),
            ConversationTitleError::TooLong { max_chars, actual_chars } => counted_text(
                "a conversation title can contain at most ",
                *max_chars,
                " characters, got ",
                *actual_chars,
            ),
        }
    }
}

impl MessageBodyError {
    /// Returns a text description of the error.
    pub fn message(&self) -> (r: String)
        ensures
            r@ == body_error_text(*self),
    {
        match self {
            MessageBodyError::Empty => String::from_str("a message body cannot be empty"),
            MessageBodyError::TooLong { max_chars, actual_chars } => counted_text(
                "a message body can contain at most ",
                *max_chars,
                " characters, got ",
                *actual_chars,
            ),
        }
    }
}

impl CreateUserError {
    /// Returns a text description of the error.
    pub fn message(&self) -> (r: String)
        ensures
            r@ == match *self {
                CreateUserError::InvalidDisplayName(e) => display_name_error_text(e),
                CreateUserError::InvalidStoreResult => "the store returned invalid state"@,
                CreateUserError::StoreUnavailable => "the store is unavailable"@,
            },
    {
        match self {
            CreateUserError::InvalidDisplayName(e) => e.message(),
            CreateUserError::InvalidStoreResult => String::from_str("the store returned invalid state"),
            CreateUserError::StoreUnavailable => String::from_str("the store is unavailable"),
        }
    }
}

impl CreateConversationError {
    /// Returns a text description of the error.
    pub fn message(&self) -> (r: String)
        ensures
            r@ == match *self {
                CreateConversationError::InvalidTitle(e) => title_error_text(e),
                CreateConversationError::CreatorNotFound => "conversation creator not found"@,
                CreateConversationError::InvalidStoreResult => "the store returned invalid state"@,
                CreateConversationError::StoreUnavailable => "the store is unavailable"@,
            },
    {
        match self {
            CreateConversationError::InvalidTitle(e) => e.message(),
            CreateConversationError::CreatorNotFound => String::from_str("conversation creator not found"),
            CreateConversationError::InvalidStoreResult => String::from_str(
                "the store returned invalid state",
            ),
            CreateConversationError::StoreUnavailable => String::from_str("the store is unavailable"),
        }
    }
}

impl PostMessageError {
    /// Returns a text description of the error.
    pub fn message(&self) -> (r: String)
        ensures
            r@ == match *self {
                PostMessageError::InvalidBody(e) => body_error_text(e),
                PostMessageError::ConversationNotFound => "conversation not found"@,
                PostMessageError::AuthorNotMember => "author is not a conversation member"@,
                PostMessageError::InvalidStoreResult => "the store returned invalid state"@,
                PostMessageError::StoreUnavailable => "the store is unavailable"@,
            },
    {
        match self {
            PostMessageError::InvalidBody(e) => e.message(),
            PostMessageError::ConversationNotFound => String::from_str("conversation not found"),
            PostMessageError::AuthorNotMember => String::from_str("author is not a conversation member"),
            PostMessageError::InvalidStoreResult => String::from_str("the store returned invalid state"),
            PostMessageError::StoreUnavailable => String::from_str("the store is unavailable"),
        }
    }
}

impl AddMemberError {
    /// Returns a text description of the error.
    pub fn message(&self) -> (r: &'static str)
        ensures
            r@ == match *self {
                AddMemberError::ConversationNotFound => "conversation not found"@,
                AddMemberError::UserNotFound => "user not found"@,
                AddMemberError::AlreadyMember => "user is already a conversation member"@,
                AddMemberError::NotOwner => "only a conversation owner can add members"@,
                AddMemberError::InvalidStoreResult => "the store returned invalid state"@,
                AddMemberError::StoreUnavailable => "the store is unavailable"@,
            },
    {
        match self {
            AddMemberError::ConversationNotFound => "conversation not found",
            AddMemberError::UserNotFound => "user not found",
            AddMemberError::AlreadyMember => "user is already a conversation member",
            AddMemberError::NotOwner => "only a conversation owner can add members",
            AddMemberError::InvalidStoreResult => "the store returned invalid state",
            AddMemberError::StoreUnavailable => "the store is unavailable",
        }
    }
}

impl RemoveMemberError {
    /// Returns a text description of the error.
    pub fn message(&self) -> (r: &'static str)
        ensures
            r@ == match *self {
                RemoveMemberError::ConversationNotFound => "conversation not found"@,
                RemoveMemberError::NotMember => "user is not a conversation member"@,
                RemoveMemberError::NotAuthorized => "the actor may not remove this member"@,
                RemoveMemberError::OwnerCannotLeave => "a conversation owner cannot be removed"@,
                RemoveMemberError::InvalidStoreResult => "the store returned invalid state"@,
                RemoveMemberError::StoreUnavailable => "the store is unavailable"@,
            },
    {
        match self {
            RemoveMemberError::ConversationNotFound => "conversation not found",
            RemoveMemberError::NotMember => "user is not a conversation member",
            RemoveMemberError::NotAuthorized => "the actor may not remove this member",
            RemoveMemberError::OwnerCannotLeave => "a conversation owner cannot be removed",
            RemoveMemberError::InvalidStoreResult => "the store returned invalid state",
            RemoveMemberError::StoreUnavailable => "the store is unavailable",
        }
    }
}

impl GetConversationError {
    /// Returns a text description of the error.
    pub fn message(&self) -> (r: &'static str)
        ensures
            r@ == match *self {
                GetConversationError::NotFound => "conversation not found"@,
                GetConversationError::InvalidStoreResult => "the store returned invalid state"@,
                GetConversationError::StoreUnavailable => "the store is unavailable"@,
            },
    {
        match self {
            GetConversationError::NotFound => "conversation not found",
            GetConversationError::InvalidStoreResult => "the store returned invalid state",
            GetConversationError::StoreUnavailable => "the store is unavailable",
        }
    }
}

impl GetMessageError {
    /// Returns a text description of the error.
    pub fn message(&self) -> (r: &'static str)
        ensures
            r@ == match *self {
                GetMessageError::NotFound => "message not found"@,
                GetMessageError::InvalidStoreResult => "the store returned invalid state"@,
                GetMessageError::StoreUnavailable => "the store is unavailable"@,
            },
    {
        match self {
            GetMessageError::NotFound => "message not found",
            GetMessageError::InvalidStoreResult => "the store returned invalid state",
            GetMessageError::StoreUnavailable => "the store is unavailable",
        }
    }
}

impl ListConversationsError {
    /// Returns a text description of the error.
    pub fn message(&self) -> (r: String)
        ensures
            r@ == match *self {
                ListConversationsError::InvalidPageSize { value, max } => page_size_text(value, max),
                ListConversationsError::InvalidStoreResult => "the store returned invalid state"@,
                ListConversationsError::StoreUnavailable => "the store is unavailable"@,
            },
    {
        match self {
            ListConversationsError::InvalidPageSize { value, max } => counted_text(
                "page size must be between 1 and ",
                *max,
                ", got ",
                *value,
            ),
            ListConversationsError::InvalidStoreResult => String::from_str(
                "the store returned invalid state",
            ),
            ListConversationsError::StoreUnavailable => String::from_str("the store is unavailable"),
        }
    }
}

impl ListMembersError {
    /// Returns a text description of the error.
    pub fn message(&self) -> (r: String)
        ensures
            r@ == match *self {
                ListMembersError::InvalidPageSize { value, max } => page_size_text(value, max),
                ListMembersError::NotFound => "conversation not found"@,
                ListMembersError::InvalidStoreResult => "the store returned invalid state"@,
                ListMembersError::StoreUnavailable => "the store is unavailable"@,
            },
    {
        match self {
            ListMembersError::InvalidPageSize { value, max } => counted_text(
                "page size must be between 1 and ",
                *max,
                ", got ",
                *value,
            ),
            ListMembersError::NotFound => String::from_str("conversation not found"),
            ListMembersError::InvalidStoreResult => String::from_str("the store returned invalid state"),
            ListMembersError::StoreUnavailable => String::from_str("the store is unavailable"),
        }
    }
}

impl ListMessagesError {
    /// Returns a text description of the error.
    pub fn message(&self) -> (r: String)
        ensures
            r@ == match *self {
                ListMessagesError::InvalidPageSize { value, max } => page_size_text(value, max),
                ListMessagesError::NotFound => "conversation not found"@,
                ListMessagesError::InvalidStoreResult => "the store returned invalid state"@,
                ListMessagesError::StoreUnavailable => "the store is unavailable"@,
            },
    {
        match self {
            ListMessagesError::InvalidPageSize { value, max } => counted_text(
                "page size must be between 1 and ",
                *max,
                ", got ",
                *value,
            ),
            ListMessagesError::NotFound => String::from_str("conversation not found"),
            ListMessagesError::InvalidStoreResult => String::from_str("the store returned invalid state"),
            ListMessagesError::StoreUnavailable => String::from_str("the store is unavailable"),
        }
    }
}

impl InvalidConversationMember {
    /// Returns a text description of the error.
    pub fn message(&self) -> (r: &'static str)
        ensures
            r@ == "the user does not match the membership"@,
    {
        "the user does not match the membership"
    }
}

} // verus!
