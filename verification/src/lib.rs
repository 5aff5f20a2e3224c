//! Verified core of a self-hosted chat service: identifiers, validated text,
//! chat entities, use-case decisions, page validation, authentication
//! primitives, HTTP problem mapping and the realtime subscription hub.

mod add_member;
pub mod auth;
pub mod channel;
pub mod config;
mod chat;
pub mod connection;
mod conversation;
pub mod cookies;
mod create_conversation;
mod create_user;
mod decimal;
pub mod error_text;
mod event;
mod get_conversation;
mod get_message;
pub mod hub;
mod id;
mod list_conversations;
pub mod login;
mod list_members;
mod list_messages;
mod membership;
mod message;
pub mod operator;
mod page;
mod post_message;
mod problem;
pub mod queries;
pub mod realtime;
mod remove_member;
pub mod representation;
mod row;
mod store_reads;
mod store_rules;
mod text;
mod time;
pub mod token;
mod user;

pub use id::{ConversationId, InvalidId, MessageId, UserId};
pub use time::millis_since_unix_epoch;
pub use user::{
    display_name_check, lemma_display_name_check_is_stable, DisplayName, DisplayNameError, NewUser, User, UserView, MAX_DISPLAY_NAME_CHARS};
pub use conversation::{
    conversation_title_check, lemma_conversation_title_check_is_stable, Conversation, ConversationTitle, ConversationTitleError,
    ConversationView, CreatedConversation, CreatedConversationView, NewConversation,
    NewConversationView, MAX_CONVERSATION_TITLE_CHARS,
};
pub use event::{events_view, ChatEvent, ChatEventView};
pub use membership::{
    Membership, MembershipChangeView, MembershipRemoval, MembershipRole, MembershipView,
    NewMembership,
};
pub use message::{
    lemma_message_body_check_is_stable, message_body_check, Message, MessageBody, MessageBodyError, MessageView, NewMessage,
    NewMessageView, MAX_MESSAGE_BODY_CHARS,
};
pub use chat::Chat;
pub use create_user::{CreateUser, CreateUserError, CreateUserResult, CreateUserResultView};
pub use add_member::{
    AddMember, AddMemberError, AddMemberResult, MemberCommandView, MembershipResultView,
};
pub use create_conversation::{
    owner_membership_matches, CreateConversation, CreateConversationError,
    CreateConversationResult, CreateConversationResultView,
};
pub use remove_member::{RemoveMember, RemoveMemberError, RemoveMemberResult};
pub use get_conversation::{ConversationDetails, ConversationEntryView, GetConversationError};
pub use get_message::GetMessageError;
pub use post_message::{
    PostMessage, PostMessageError, PostMessageResult, PostMessageResultView, PostMessageView,
};
pub use list_conversations::{
    conversation_ids, conversation_page_matches, conversation_page_valid,
    lemma_cut_conversation_page_is_valid, ConversationPage, ConversationPageView,
    ConversationSummary, ListConversations, ListConversationsError, ListConversationsView,
    DEFAULT_CONVERSATION_PAGE_SIZE, MAX_CONVERSATION_PAGE_SIZE,
};
pub use page::{
    all_above, all_below, cursor_names_last, cut_cursor, cut_ids, distinct,
    lemma_cut_keeps_order, lemma_ordered_ids_are_distinct, page_size_accepted,
    strictly_ascending, strictly_descending,
};
pub use list_members::{
    all_in_conversation, all_name_their_users, lemma_cut_member_page_is_valid, member_ids, member_page_matches,
    member_page_valid, ConversationMember, ConversationMemberView, InvalidConversationMember,
    ListMembers, ListMembersError, ListMembersView, MemberPage, MemberPageView,
    DEFAULT_MEMBER_PAGE_SIZE, MAX_MEMBER_PAGE_SIZE,
};
pub use list_messages::{
    all_messages_in, lemma_cut_message_page_is_valid, message_ids, message_page_matches,
    message_page_valid, ListMessages, ListMessagesError, ListMessagesView, MessagePage,
    MessagePageView, DEFAULT_MESSAGE_PAGE_SIZE, MAX_MESSAGE_PAGE_SIZE,
};
pub use decimal::{
    all_digits, decimal_of, digit_char, digits_value, format_i64, format_u64, i64_decimal,
    i64_from_decimal, is_digit, lemma_decimal_of, lemma_i64_decimal_round_trip, parse_i64,
    parse_u64, u64_from_decimal,
};
pub use row::{
    conversation_read_as, conversation_row_fits, membership_read_as, membership_row_fits,
    message_read_as, message_row_fits, read_conversation, read_membership, read_user,
    role_from_db, role_named, role_text, role_to_db, system_time_from_millis, user_read_as,
    user_row_fits, conversation_from_stored, conversation_parts_fit, member_from_stored,
    membership_from_stored, membership_parts_fit, message_from_stored, message_parts_fit,
    user_from_stored, user_parts_fit, entry_of, ConversationMemberRow, ConversationRow, ConversationWithRoleRow,
    InvalidStoredData, MembershipRow, MessageRow, OptionalConversationMemberRow,
    OptionalMessageRow, UserRow, MEMBER_ROLE, OWNER_ROLE,
};
pub use store_rules::{
    add_member_decision, add_member_rule, create_conversation_decision, fetch_limit,
    member_insert_outcome, reports_unique_violation, conversation_page_size_check,
    member_page_size_check, message_page_size_check,
    lemma_add_member_succeeds_exactly_for_owners_adding_new_users,
    lemma_remove_member_succeeds_exactly_for_leaving_members_and_owners,
    post_message_decision, remove_member_decision, remove_member_rule,
};
pub use config::{AdmissionMode, OidcConfig};
pub use store_reads::{
    conversation_page_from_read_rows, conversation_page_from_rows, details_from_row,
    member_page_from_read_rows, member_page_from_rows, message_page_from_read_rows,
    message_page_from_rows,
};
pub use operator::{CreateAdmissionCodeError, CreatedAdmissionCode, MAX_ADMISSION_CODE_LIFETIME_HOURS};
pub use problem::{
    content_too_large_problem, field_validation_problem, forbidden_problem, internal_problem,
    invalid_request_problem, login_failed_problem, map_create_conversation_error,
    map_get_conversation_error, map_get_message_error, map_list_conversations_error,
    map_list_members_error, map_list_messages_error, map_post_message_error, not_found_problem,
    parse_conversation_id, parse_message_id, parse_user_id, plain_problem, positive_id_in,
    unauthenticated_problem, unavailable_problem, unsupported_media_type_problem, FieldError,
    FieldErrorView, Problem, ProblemView, AUTHENTICATION_CHALLENGE,
};
