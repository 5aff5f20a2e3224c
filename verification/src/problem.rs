use vstd::prelude::*;

use crate::create_conversation::CreateConversationError;
use crate::conversation::ConversationTitleError;
use crate::decimal::{i64_from_decimal, parse_i64};
use crate::get_conversation::GetConversationError;
use crate::get_message::GetMessageError;
use crate::id::{ConversationId, MessageId, UserId};
use crate::list_conversations::{ListConversationsError, MAX_CONVERSATION_PAGE_SIZE};
use crate::list_members::{ListMembersError, MAX_MEMBER_PAGE_SIZE};
use crate::list_messages::{ListMessagesError, MAX_MESSAGE_PAGE_SIZE};
use crate::message::MessageBodyError;
use crate::post_message::PostMessageError;

verus! {

/// The challenge sent with every `401 Unauthorized` problem.
pub const AUTHENTICATION_CHALLENGE: &'static str = "ChatSession realm=\"chat\"";

/// One field-level validation failure of a problem document.
pub struct FieldErrorView {
    pub field: Seq<char>,
    pub code: Seq<char>,
    pub max: Option<usize>,
}

/// The parts of a problem document that contracts speak of.
pub struct ProblemView {
    pub type_uri: Seq<char>,
    pub title: Seq<char>,
    pub status: u16,
    pub errors: Seq<FieldErrorView>,
}

/// One field-level validation failure of a problem document.
#[derive(Clone, Debug, PartialEq, Eq)]
pub struct FieldError {
    field: &'static str,
    code: &'static str,
    max: Option<usize>,
}

impl View for FieldError {
    type V = FieldErrorView;

    closed spec fn view(&self) -> FieldErrorView {
        FieldErrorView { field: self.field@, code: self.code@, max: self.max }
    }
}

impl FieldError {
    /// The rejected field.
    pub fn field(&self) -> (r: &'static str)
        ensures
            r@ == self@.field,
    {
        self.field
    }

    /// The stable code of the failure.
    pub fn code(&self) -> (r: &'static str)
        ensures
            r@ == self@.code,
    {
        self.code
    }

    /// The accepted maximum, when the failure is about one.
    pub fn max(&self) -> (r: Option<usize>)
        ensures
            r == self@.max,
    {
        self.max
    }
}

/// An RFC 9457 problem document returned by the HTTP API.
#[derive(Clone, Debug, PartialEq, Eq)]
pub struct Problem {
    type_uri: &'static str,
    title: &'static str,
    status: u16,
    errors: Vec<FieldError>,
}

impl View for Problem {
    type V = ProblemView;

    closed spec fn view(&self) -> ProblemView {
        ProblemView {
            type_uri: self.type_uri@,
            title: self.title@,
            status: self.status,
            errors: self.errors@.map_values(|e: FieldError| e@),
        }
    }
}

/// A problem with no field errors.
pub open spec fn plain_problem(type_uri: Seq<char>, title: Seq<char>, status: u16) -> ProblemView {
    ProblemView { type_uri, title, status, errors: Seq::empty() }
}

pub open spec fn unauthenticated_problem() -> ProblemView {
    plain_problem(
        "urn:chat-rs:problem:authentication-required"@,
        "Authentication required"@,
        401,
    )
}

pub open spec fn forbidden_problem() -> ProblemView {
    plain_problem("urn:chat-rs:problem:forbidden"@, "Request is not permitted"@, 403)
}

pub open spec fn invalid_request_problem() -> ProblemView {
    plain_problem("urn:chat-rs:problem:invalid-request"@, "Request is invalid"@, 400)
}

pub open spec fn field_validation_problem(field: Seq<char>, code: Seq<char>, max: Option<usize>) -> ProblemView {
    ProblemView {
        type_uri: "urn:chat-rs:problem:validation-failed"@,
        title: "Request validation failed"@,
        status: 422,
        errors: seq![FieldErrorView { field, code, max }],
    }
}

pub open spec fn content_too_large_problem() -> ProblemView {
    plain_problem("urn:chat-rs:problem:content-too-large"@, "Request content is too large"@, 413)
}

pub open spec fn unsupported_media_type_problem() -> ProblemView {
    plain_problem(
        "urn:chat-rs:problem:unsupported-media-type"@,
        "Request media type is not supported"@,
        415,
    )
}

pub open spec fn not_found_problem() -> ProblemView {
    plain_problem("urn:chat-rs:problem:not-found"@, "Resource not found"@, 404)
}

pub open spec fn login_failed_problem() -> ProblemView {
    plain_problem("urn:chat-rs:problem:login-failed"@, "Login could not be completed"@, 401)
}

pub open spec fn unavailable_problem() -> ProblemView {
    plain_problem(
        "urn:chat-rs:problem:service-unavailable"@,
        "Service temporarily unavailable"@,
        503,
    )
}

pub open spec fn internal_problem() -> ProblemView {
    plain_problem("urn:chat-rs:problem:internal"@, "Internal server error"@, 500)
}

impl Problem {
    fn new(type_uri: &'static str, title: &'static str, status: u16) -> (r: Self)
        ensures
            r@ == plain_problem(type_uri@, title@, status),
    {
        let r = Problem { type_uri, title, status, errors: Vec::new() };
        assert(r@.errors =~= Seq::<FieldErrorView>::empty());
        r
    }

    /// The request carries no valid session.
    pub fn unauthenticated() -> (r: Self)
        ensures
            r@ == unauthenticated_problem(),
    {
        Problem::new(
            "urn:chat-rs:problem:authentication-required",
            "Authentication required",
            401,
        )
    }

    /// The request is not permitted.
    pub fn forbidden() -> (r: Self)
        ensures
            r@ == forbidden_problem(),
    {
        Problem::new("urn:chat-rs:problem:forbidden", "Request is not permitted", 403)
    }

    /// The request is malformed.
    pub fn invalid_request() -> (r: Self)
        ensures
            r@ == invalid_request_problem(),
    {
        Problem::new("urn:chat-rs:problem:invalid-request", "Request is invalid", 400)
    }

    /// A numeric field is outside its accepted range.
    pub fn validation(field: &'static str, max: usize) -> (r: Self)
        ensures
            r@ == field_validation_problem(field@, "out_of_range"@, Some(max)),
    {
        Problem::field_validation(field, "out_of_range", Some(max))
    }

    /// A field breaks a validation rule named by `code`.
    pub fn field_validation(field: &'static str, code: &'static str, max: Option<usize>) -> (r: Self)
        ensures
            r@ == field_validation_problem(field@, code@, max),
    {
        let mut problem = Problem::new(
            "urn:chat-rs:problem:validation-failed",
            "Request validation failed",
            422,
        );
        problem.errors.push(FieldError { field, code, max });
        assert(problem@.errors =~= seq![FieldErrorView { field: field@, code: code@, max }]);
        problem
    }

    /// The request body exceeds its limit.
    pub fn content_too_large() -> (r: Self)
        ensures
            r@ == content_too_large_problem(),
    {
        Problem::new("urn:chat-rs:problem:content-too-large", "Request content is too large", 413)
    }

    /// The request media type is not supported.
    pub fn unsupported_media_type() -> (r: Self)
        ensures
            r@ == unsupported_media_type_problem(),
    {
        Problem::new(
            "urn:chat-rs:problem:unsupported-media-type",
            "Request media type is not supported",
            415,
        )
    }

    /// Maps the status of a rejected JSON or form body to the problem
    /// reported for it.
    pub fn from_rejection_status(status: u16) -> (r: Self)
        ensures
            status == 413 ==> r@ == content_too_large_problem(),
            status == 415 ==> r@ == unsupported_media_type_problem(),
            status == 400 || status == 422 ==> r@ == invalid_request_problem(),
            status != 413 && status != 415 && status != 400 && status != 422 ==> r@
                == internal_problem(),
    {
        if status == 413 {
            Problem::content_too_large()
        } else if status == 415 {
            Problem::unsupported_media_type()
        } else if status == 400 || status == 422 {
            Problem::invalid_request()
        } else {
            Problem::internal()
        }
    }

    /// The resource does not exist or is not visible.
    pub fn not_found() -> (r: Self)
        ensures
            r@ == not_found_problem(),
    {
        Problem::new("urn:chat-rs:problem:not-found", "Resource not found", 404)
    }

    /// A login attempt failed.
    pub fn login_failed() -> (r: Self)
        ensures
            r@ == login_failed_problem(),
    {
        Problem::new("urn:chat-rs:problem:login-failed", "Login could not be completed", 401)
    }

    /// A dependency is temporarily unavailable.
    pub fn unavailable() -> (r: Self)
        ensures
            r@ == unavailable_problem(),
    {
        Problem::new(
            "urn:chat-rs:problem:service-unavailable",
            "Service temporarily unavailable",
            503,
        )
    }

    /// The server failed unexpectedly.
    pub fn internal() -> (r: Self)
        ensures
            r@ == internal_problem(),
    {
        Problem::new("urn:chat-rs:problem:internal", "Internal server error", 500)
    }

    /// The problem type URI.
    pub fn type_uri(&self) -> (r: &'static str)
        ensures
            r@ == self@.type_uri,
    {
        self.type_uri
    }

    /// The short human-readable title.
    pub fn title(&self) -> (r: &'static str)
        ensures
            r@ == self@.title,
    {
        self.title
    }

    /// The HTTP status code.
    pub fn status(&self) -> (r: u16)
        ensures
            r == self@.status,
    {
        self.status
    }

    /// The field-level validation failures.
    pub fn errors(&self) -> (r: &[FieldError])
        ensures
            r@.map_values(|e: FieldError| e@) == self@.errors,
    {
        self.errors.as_slice()
    }

    /// Whether the response must carry the authentication challenge: exactly
    /// the `401 Unauthorized` problems do.
    pub fn needs_challenge(&self) -> (r: bool)
        ensures
            r == (self@.status == 401),
    {
        self.status == 401
    }
}

/// The identifier a path or query value names, as the HTTP API reads it: a
/// decimal `i64` that is positive.
pub open spec fn positive_id_in(value: Seq<char>) -> Option<i64> {
    match i64_from_decimal(value) {
        Some(v) => if v > 0 {
            Some(v)
        } else {
            None
        },
        None => None,
    }
}

/// Parses a conversation ID from a path or query value.
pub fn parse_conversation_id(value: &str) -> (r: Result<ConversationId, Problem>)
    ensures
        positive_id_in(value@) is Some <==> r is Ok,
        r matches Ok(id) ==> positive_id_in(value@) == Some(id@),
        r matches Err(p) ==> p@ == invalid_request_problem(),
{
    match parse_i64(value) {
        Some(v) => match ConversationId::new(v) {
            Ok(id) => Ok(id),
            Err(_) => Err(Problem::invalid_request()),
        },
        None => Err(Problem::invalid_request()),
    }
}

/// Parses a user ID from a path or query value.
pub fn parse_user_id(value: &str) -> (r: Result<UserId, Problem>)
    ensures
        positive_id_in(value@) is Some <==> r is Ok,
        r matches Ok(id) ==> positive_id_in(value@) == Some(id@),
        r matches Err(p) ==> p@ == invalid_request_problem(),
{
    match parse_i64(value) {
        Some(v) => match UserId::new(v) {
            Ok(id) => Ok(id),
            Err(_) => Err(Problem::invalid_request()),
        },
        None => Err(Problem::invalid_request()),
    }
}

/// Parses a message ID from a path or query value.
pub fn parse_message_id(value: &str) -> (r: Result<MessageId, Problem>)
    ensures
        positive_id_in(value@) is Some <==> r is Ok,
        r matches Ok(id) ==> positive_id_in(value@) == Some(id@),
        r matches Err(p) ==> p@ == invalid_request_problem(),
{
    match parse_i64(value) {
        Some(v) => match MessageId::new(v) {
            Ok(id) => Ok(id),
            Err(_) => Err(Problem::invalid_request()),
        },
        None => Err(Problem::invalid_request()),
    }
}

/// Maps a failed conversation read to its problem.
pub fn map_get_conversation_error(error: GetConversationError) -> (r: Problem)
    ensures
        r@ == match error {
            GetConversationError::NotFound => not_found_problem(),
            GetConversationError::StoreUnavailable => unavailable_problem(),
            GetConversationError::InvalidStoreResult => internal_problem(),
        },
{
    match error {
        GetConversationError::NotFound => Problem::not_found(),
        GetConversationError::StoreUnavailable => Problem::unavailable(),
        GetConversationError::InvalidStoreResult => Problem::internal(),
    }
}

/// Maps a failed message read to its problem.
pub fn map_get_message_error(error: GetMessageError) -> (r: Problem)
    ensures
        r@ == match error {
            GetMessageError::NotFound => not_found_problem(),
            GetMessageError::StoreUnavailable => unavailable_problem(),
            GetMessageError::InvalidStoreResult => internal_problem(),
        },
{
    match error {
        GetMessageError::NotFound => Problem::not_found(),
        GetMessageError::StoreUnavailable => Problem::unavailable(),
        GetMessageError::InvalidStoreResult => Problem::internal(),
    }
}

/// Maps a failed conversation creation to its problem: title rules become
/// validation failures of the `title` field.
pub fn map_create_conversation_error(error: CreateConversationError) -> (r: Problem)
    ensures
        r@ == match error {
            CreateConversationError::InvalidTitle(ConversationTitleError::Empty) =>
                field_validation_problem("title"@, "empty"@, None),
            CreateConversationError::InvalidTitle(
                ConversationTitleError::ContainsControlCharacter,
            ) => field_validation_problem("title"@, "contains_control_character"@, None),
            CreateConversationError::InvalidTitle(
                ConversationTitleError::TooLong { max_chars, .. },
            ) => field_validation_problem("title"@, "too_long"@, Some(max_chars)),
            CreateConversationError::CreatorNotFound => unauthenticated_problem(),
            CreateConversationError::StoreUnavailable => unavailable_problem(),
            CreateConversationError::InvalidStoreResult => internal_problem(),
        },
{
    match error {
        CreateConversationError::InvalidTitle(error) => match error {
            ConversationTitleError::Empty => Problem::field_validation("title", "empty", None),
            ConversationTitleError::ContainsControlCharacter => Problem::field_validation(
                "title",
                "contains_control_character",
                None,
            ),
            ConversationTitleError::TooLong { max_chars, .. } => Problem::field_validation(
                "title",
                "too_long",
                Some(max_chars),
            ),
        },
        CreateConversationError::CreatorNotFound => Problem::unauthenticated(),
        CreateConversationError::StoreUnavailable => Problem::unavailable(),
        CreateConversationError::InvalidStoreResult => Problem::internal(),
    }
}

/// Maps a failed post to its problem: body rules become validation failures
/// of the `body` field, and a missing conversation and a non-member author
/// both read as not found.
pub fn map_post_message_error(error: PostMessageError) -> (r: Problem)
    ensures
        r@ == match error {
            PostMessageError::InvalidBody(MessageBodyError::Empty) => field_validation_problem(
                "body"@,
                "empty"@,
                None,
            ),
            PostMessageError::InvalidBody(MessageBodyError::TooLong { max_chars, .. }) =>
                field_validation_problem("body"@, "too_long"@, Some(max_chars)),
            PostMessageError::ConversationNotFound => not_found_problem(),
            PostMessageError::AuthorNotMember => not_found_problem(),
            PostMessageError::StoreUnavailable => unavailable_problem(),
            PostMessageError::InvalidStoreResult => internal_problem(),
        },
{
    match error {
        PostMessageError::InvalidBody(error) => match error {
            MessageBodyError::Empty => Problem::field_validation("body", "empty", None),
            MessageBodyError::TooLong { max_chars, .. } => Problem::field_validation(
                "body",
                "too_long",
                Some(max_chars),
            ),
        },
        PostMessageError::ConversationNotFound | PostMessageError::AuthorNotMember =>
            Problem::not_found(),
        PostMessageError::StoreUnavailable => Problem::unavailable(),
        PostMessageError::InvalidStoreResult => Problem::internal(),
    }
}

/// Maps a failed conversation listing to its problem.
pub fn map_list_conversations_error(error: ListConversationsError) -> (r: Problem)
    ensures
        r@ == match error {
            ListConversationsError::InvalidPageSize { .. } => field_validation_problem(
                "limit"@,
                "out_of_range"@,
                Some(MAX_CONVERSATION_PAGE_SIZE),
            ),
            ListConversationsError::StoreUnavailable => unavailable_problem(),
            ListConversationsError::InvalidStoreResult => internal_problem(),
        },
{
    match error {
        ListConversationsError::InvalidPageSize { .. } => Problem::validation(
            "limit",
            MAX_CONVERSATION_PAGE_SIZE,
        ),
        ListConversationsError::StoreUnavailable => Problem::unavailable(),
        ListConversationsError::InvalidStoreResult => Problem::internal(),
    }
}

/// Maps a failed member listing to its problem.
pub fn map_list_members_error(error: ListMembersError) -> (r: Problem)
    ensures
        r@ == match error {
            ListMembersError::InvalidPageSize { .. } => field_validation_problem(
                "limit"@,
                "out_of_range"@,
                Some(MAX_MEMBER_PAGE_SIZE),
            ),
            ListMembersError::NotFound => not_found_problem(),
            ListMembersError::StoreUnavailable => unavailable_problem(),
            ListMembersError::InvalidStoreResult => internal_problem(),
        },
{
    match error {
        ListMembersError::InvalidPageSize { .. } => Problem::validation(
            "limit",
            MAX_MEMBER_PAGE_SIZE,
        ),
        ListMembersError::NotFound => Problem::not_found(),
        ListMembersError::StoreUnavailable => Problem::unavailable(),
        ListMembersError::InvalidStoreResult => Problem::internal(),
    }
}

/// Maps a failed message listing to its problem.
pub fn map_list_messages_error(error: ListMessagesError) -> (r: Problem)
    ensures
        r@ == match error {
            ListMessagesError::InvalidPageSize { .. } => field_validation_problem(
                "limit"@,
                "out_of_range"@,
                Some(MAX_MESSAGE_PAGE_SIZE),
            ),
            ListMessagesError::NotFound => not_found_problem(),
            ListMessagesError::StoreUnavailable => unavailable_problem(),
            ListMessagesError::InvalidStoreResult => internal_problem(),
        },
{
    match error {
        ListMessagesError::InvalidPageSize { .. } => Problem::validation(
            "limit",
            MAX_MESSAGE_PAGE_SIZE,
        ),
        ListMessagesError::NotFound => Problem::not_found(),
        ListMessagesError::StoreUnavailable => Problem::unavailable(),
        ListMessagesError::InvalidStoreResult => Problem::internal(),
    }
}

} // verus!
