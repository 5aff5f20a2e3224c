use vstd::prelude::*;

use crate::id::ConversationId;
use crate::list_conversations::{ListConversations, ListConversationsView, DEFAULT_CONVERSATION_PAGE_SIZE};
use crate::list_members::{ListMembers, ListMembersView, DEFAULT_MEMBER_PAGE_SIZE};
use crate::list_messages::{ListMessages, ListMessagesView, DEFAULT_MESSAGE_PAGE_SIZE};
use crate::problem::{
    invalid_request_problem, parse_conversation_id, parse_message_id, parse_user_id,
    positive_id_in, Problem,
};

verus! {

/// The page size a query asks for, or the default.
pub open spec fn size_or(limit: Option<usize>, default: usize) -> usize {
    match limit {
        Some(l) => l,
        None => default,
    }
}

/// Builds a conversation listing from its query parameters: a cursor that
/// is not a positive ID makes the request invalid; page sizes are checked
/// by the use case.
pub fn conversation_list_query(before: Option<&str>, limit: Option<usize>) -> (r: Result<
    ListConversations,
    Problem,
>)
    ensures
        match before {
            Some(b) => match positive_id_in(b@) {
                None => r matches Err(p) && p@ == invalid_request_problem(),
                Some(id) => r matches Ok(q) && q@ == (ListConversationsView {
                    before: Some(id),
                    limit: size_or(limit, DEFAULT_CONVERSATION_PAGE_SIZE),
                }),
            },
            None => r matches Ok(q) && q@ == (ListConversationsView {
                before: None,
                limit: size_or(limit, DEFAULT_CONVERSATION_PAGE_SIZE),
            }),
        },
{
    let mut request = ListConversations::new();
    if let Some(b) = before {
        request = request.before(parse_conversation_id(b)?);
    }
    if let Some(l) = limit {
        request = request.limit(l);
    }
    Ok(request)
}

/// Builds a member listing of `conversation_id` from its query parameters.
pub fn member_list_query(conversation_id: ConversationId, after: Option<&str>, limit: Option<usize>) -> (r:
    Result<ListMembers, Problem>)
    ensures
        match after {
            Some(a) => match positive_id_in(a@) {
                None => r matches Err(p) && p@ == invalid_request_problem(),
                Some(id) => r matches Ok(q) && q@ == (ListMembersView {
                    conversation_id: conversation_id@,
                    after: Some(id),
                    limit: size_or(limit, DEFAULT_MEMBER_PAGE_SIZE),
                }),
            },
            None => r matches Ok(q) && q@ == (ListMembersView {
                conversation_id: conversation_id@,
                after: None,
                limit: size_or(limit, DEFAULT_MEMBER_PAGE_SIZE),
            }),
        },
{
    let mut request = ListMembers::new(conversation_id);
    if let Some(a) = after {
        request = request.after(parse_user_id(a)?);
    }
    if let Some(l) = limit {
        request = request.limit(l);
    }
    Ok(request)
}

/// Builds a message listing of `conversation_id` from its query parameters.
pub fn message_list_query(conversation_id: ConversationId, before: Option<&str>, limit: Option<usize>) -> (r:
    Result<ListMessages, Problem>)
    ensures
        match before {
            Some(b) => match positive_id_in(b@) {
                None => r matches Err(p) && p@ == invalid_request_problem(),
                Some(id) => r matches Ok(q) && q@ == (ListMessagesView {
                    conversation_id: conversation_id@,
                    before: Some(id),
                    limit: size_or(limit, DEFAULT_MESSAGE_PAGE_SIZE),
                }),
            },
            None => r matches Ok(q) && q@ == (ListMessagesView {
                conversation_id: conversation_id@,
                before: None,
                limit: size_or(limit, DEFAULT_MESSAGE_PAGE_SIZE),
            }),
        },
{
    let mut request = ListMessages::new(conversation_id);
    if let Some(b) = before {
        request = request.before(parse_message_id(b)?);
    }
    if let Some(l) = limit {
        request = request.limit(l);
    }
    Ok(request)
}

} // verus!
