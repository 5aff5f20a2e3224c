use vstd::prelude::*;

use crate::add_member::AddMemberError;
use crate::create_conversation::CreateConversationError;
use crate::membership::{Membership, MembershipRemoval, MembershipRole, MembershipView};
use crate::list_conversations::{ListConversationsError, MAX_CONVERSATION_PAGE_SIZE};
use crate::list_members::{ListMembersError, MAX_MEMBER_PAGE_SIZE};
use crate::list_messages::{ListMessagesError, MAX_MESSAGE_PAGE_SIZE};
use crate::page::page_size_accepted;
use crate::post_message::PostMessageError;
use crate::remove_member::RemoveMemberError;
use crate::row::{role_from_db, role_named, InvalidStoredData};

verus! {

/// Whether `sqlx::Error::as_database_error` finds a database error in `e`
/// whose `DatabaseError::is_unique_violation` answers yes, a function of the
/// error alone.
pub uninterp spec fn reports_unique_violation(e: sqlx::Error) -> bool;

/// Whether a database error reports a violated uniqueness constraint.
///
/// Trusted: calls `sqlx::Error::as_database_error` and, on a database error,
/// `DatabaseError::is_unique_violation`; the answer is the one named by
/// `reports_unique_violation`.
#[verifier::external_body]
pub(crate) fn unique_violation(error: &sqlx::Error) -> (r: bool)
    ensures
        r == reports_unique_violation(*error),
{
    error.as_database_error().is_some_and(|e| e.is_unique_violation())
}

/// What an attempted membership insert means: success, an existing
/// membership when the store reports a duplicate key, and otherwise an
/// unavailable store.
pub fn member_insert_outcome(inserted: Result<(), sqlx::Error>) -> (r: Result<(), AddMemberError>)
    ensures
        match inserted {
            Ok(()) => r is Ok,
            Err(e) => if reports_unique_violation(e) {
                r == Err::<(), AddMemberError>(AddMemberError::AlreadyMember)
            } else {
                r == Err::<(), AddMemberError>(AddMemberError::StoreUnavailable)
            },
        },
{
    match inserted {
        Ok(()) => Ok(()),
        Err(error) => if unique_violation(&error) {
            Err(AddMemberError::AlreadyMember)
        } else {
            Err(AddMemberError::StoreUnavailable)
        },
    }
}

/// The rule a store applies before creating a conversation: the creator must
/// exist.
pub fn create_conversation_decision(creator_exists: bool) -> (r: Result<(), CreateConversationError>)
    ensures
        creator_exists <==> r is Ok,
        r matches Err(e) ==> e == CreateConversationError::CreatorNotFound,
{
    if !creator_exists {
        return Err(CreateConversationError::CreatorNotFound);
    }
    Ok(())
}

/// The outcome the add-member rules give for what the store read, checked in
/// this order: the conversation exists, the actor owns it, the user exists,
/// the user is not yet a member.
pub open spec fn add_member_rule(
    conversation_exists: bool,
    actor_role: Option<Seq<char>>,
    user_exists: bool,
    existing_role: Option<Seq<char>>,
) -> Result<(), AddMemberError> {
    if !conversation_exists {
        Err(AddMemberError::ConversationNotFound)
    } else if actor_role is None {
        Err(AddMemberError::NotOwner)
    } else if role_named(actor_role->0) is None {
        Err(AddMemberError::InvalidStoreResult)
    } else if role_named(actor_role->0) != Some(MembershipRole::Owner) {
        Err(AddMemberError::NotOwner)
    } else if !user_exists {
        Err(AddMemberError::UserNotFound)
    } else if existing_role is Some {
        if role_named(existing_role->0) is None {
            Err(AddMemberError::InvalidStoreResult)
        } else {
            Err(AddMemberError::AlreadyMember)
        }
    } else {
        Ok(())
    }
}

/// Decides whether a member may be added, from what the store read in one
/// transaction: whether the conversation exists, the actor's stored role,
/// whether the user exists, and the user's stored role if already a member.
/// Only an owner adds members, and nobody is added twice.
pub fn add_member_decision(
    conversation_exists: bool,
    actor_role: Option<&str>,
    user_exists: bool,
    existing_role: Option<&str>,
) -> (r: Result<(), AddMemberError>)
    ensures
        r == add_member_rule(
            conversation_exists,
            match actor_role {
                Some(s) => Some(s@),
                None => None,
            },
            user_exists,
            match existing_role {
                Some(s) => Some(s@),
                None => None,
            },
        ),
        r is Ok ==> actor_role is Some && role_named(actor_role->0@) == Some(
            MembershipRole::Owner,
        ),
        r is Ok ==> existing_role is None && user_exists && conversation_exists,
        (conversation_exists && (actor_role matches Some(a) && role_named(a@) == Some(
            MembershipRole::Owner,
        )) && user_exists && existing_role is None) ==> r is Ok,
{
    if !conversation_exists {
        return Err(AddMemberError::ConversationNotFound);
    }
    let actor_role = match actor_role {
        Some(role) => role,
        None => return Err(AddMemberError::NotOwner),
    };
    match role_from_db(actor_role) {
        Ok(MembershipRole::Owner) => {},
        Ok(MembershipRole::Member) => return Err(AddMemberError::NotOwner),
        Err(_) => return Err(AddMemberError::InvalidStoreResult),
    }
    if !user_exists {
        return Err(AddMemberError::UserNotFound);
    }
    match existing_role {
        Some(role) => match role_from_db(role) {
            Ok(_) => Err(AddMemberError::AlreadyMember),
            Err(_) => Err(AddMemberError::InvalidStoreResult),
        },
        None => Ok(()),
    }
}

/// The outcome the remove-member rules give for what the store read, checked
/// in this order: the conversation exists, the target is a member whose row
/// reads back, and then either the actor leaves as a non-owner, or the actor
/// is an owner removing a non-owner.
pub open spec fn remove_member_rule(
    actor_id: i64,
    user_id: i64,
    conversation_exists: bool,
    target: Option<Result<MembershipView, InvalidStoredData>>,
    actor_role: Option<Seq<char>>,
) -> Result<MembershipView, RemoveMemberError> {
    if !conversation_exists {
        Err(RemoveMemberError::ConversationNotFound)
    } else if target is None {
        Err(RemoveMemberError::NotMember)
    } else if target->0 is Err {
        Err(RemoveMemberError::InvalidStoreResult)
    } else if actor_id == user_id {
        if target->0->Ok_0.role == MembershipRole::Owner {
            Err(RemoveMemberError::OwnerCannotLeave)
        } else {
            Ok(target->0->Ok_0)
        }
    } else if actor_role is None {
        Err(RemoveMemberError::NotAuthorized)
    } else if role_named(actor_role->0) is None {
        Err(RemoveMemberError::InvalidStoreResult)
    } else if role_named(actor_role->0) != Some(MembershipRole::Owner) {
        Err(RemoveMemberError::NotAuthorized)
    } else if target->0->Ok_0.role == MembershipRole::Owner {
        Err(RemoveMemberError::OwnerCannotLeave)
    } else {
        Ok(target->0->Ok_0)
    }
}

/// Decides whether a member may be removed, from what the store read in one
/// transaction: whether the conversation exists, the target's membership as
/// read back from its row, and the actor's stored role. A member may leave;
/// an owner may remove a member; an owner is never removed. On success the
/// target's membership is returned.
pub fn remove_member_decision(
    removal: MembershipRemoval,
    conversation_exists: bool,
    target: Option<Result<Membership, InvalidStoredData>>,
    actor_role: Option<&str>,
) -> (r: Result<Membership, RemoveMemberError>)
    ensures
        match remove_member_rule(
            removal@.actor_id,
            removal@.user_id,
            conversation_exists,
            match target {
                Some(Ok(m)) => Some(Ok(m@)),
                Some(Err(e)) => Some(Err(e)),
                None => None,
            },
            match actor_role {
                Some(a) => Some(a@),
                None => None,
            },
        ) {
            Ok(v) => r matches Ok(m) && m@ == v,
            Err(e) => r == Err::<Membership, RemoveMemberError>(e),
        },
        r matches Ok(m) ==> m@.role == MembershipRole::Member,
        r is Ok ==> removal@.actor_id == removal@.user_id || (actor_role is Some && role_named(
            actor_role->0@,
        ) == Some(MembershipRole::Owner)),
        (conversation_exists && removal@.actor_id == removal@.user_id && (target matches Some(
            Ok(m),
        ) && m@.role == MembershipRole::Member)) ==> (r matches Ok(x) && x@ == target->0->Ok_0@),
{
    if !conversation_exists {
        return Err(RemoveMemberError::ConversationNotFound);
    }
    let target = match target {
        Some(Ok(m)) => m,
        Some(Err(_)) => return Err(RemoveMemberError::InvalidStoreResult),
        None => return Err(RemoveMemberError::NotMember),
    };
    if removal.actor_id().get() == removal.user_id().get() {
        if target.role() == MembershipRole::Owner {
            return Err(RemoveMemberError::OwnerCannotLeave);
        }
    } else {
        let actor_role = match actor_role {
            Some(role) => role,
            None => return Err(RemoveMemberError::NotAuthorized),
        };
        match role_from_db(actor_role) {
            Ok(MembershipRole::Owner) => {},
            Ok(MembershipRole::Member) => return Err(RemoveMemberError::NotAuthorized),
            Err(_) => return Err(RemoveMemberError::InvalidStoreResult),
        }
        if target.role() == MembershipRole::Owner {
            return Err(RemoveMemberError::OwnerCannotLeave);
        }
    }
    Ok(target)
}

/// Decides whether a message may be stored, from what the store read in one
/// transaction: whether the conversation exists and the author's stored role.
/// Only a member, of either role, posts.
pub fn post_message_decision(conversation_exists: bool, author_role: Option<&str>) -> (r: Result<
    (),
    PostMessageError,
>)
    ensures
        !conversation_exists ==> r == Err::<(), PostMessageError>(
            PostMessageError::ConversationNotFound,
        ),
        conversation_exists && author_role is None ==> r == Err::<(), PostMessageError>(
            PostMessageError::AuthorNotMember,
        ),
        (conversation_exists && author_role is Some && role_named(author_role->0@) is None) ==> r
            == Err::<(), PostMessageError>(PostMessageError::InvalidStoreResult),
        r is Ok <==> (conversation_exists && author_role is Some && role_named(author_role->0@) is Some),
{
    if !conversation_exists {
        return Err(PostMessageError::ConversationNotFound);
    }
    match author_role {
        None => Err(PostMessageError::AuthorNotMember),
        Some(role) => match role_from_db(role) {
            Ok(_) => Ok(()),
            Err(_) => Err(PostMessageError::InvalidStoreResult),
        },
    }
}

/// The number of rows a store reads for a page: one past the page size, so
/// that it can tell whether another page follows.
pub fn fetch_limit(page_size: usize) -> (r: Option<i64>)
    ensures
        page_size < 0x7fff_ffff_ffff_ffff ==> r == Some((page_size + 1) as i64),
        page_size >= 0x7fff_ffff_ffff_ffff ==> r is None,
{
    let size = page_size as u64;
    if size >= 0x7fff_ffff_ffff_ffff {
        None
    } else {
        Some((size + 1) as i64)
    }
}


/// The page-size check a store makes before reading conversations: sizes
/// outside `1..=MAX_CONVERSATION_PAGE_SIZE` are refused with the size and
/// the maximum.
pub fn conversation_page_size_check(page_size: usize) -> (r: Result<(), ListConversationsError>)
    ensures
        page_size_accepted(page_size, MAX_CONVERSATION_PAGE_SIZE) ==> r is Ok,
        !page_size_accepted(page_size, MAX_CONVERSATION_PAGE_SIZE) ==> r == Err::<
            (),
            ListConversationsError,
        >(ListConversationsError::InvalidPageSize { value: page_size, max: MAX_CONVERSATION_PAGE_SIZE }),
{
    if page_size < 1 || page_size > MAX_CONVERSATION_PAGE_SIZE {
        return Err(
            ListConversationsError::InvalidPageSize { value: page_size, max: MAX_CONVERSATION_PAGE_SIZE },
        );
    }
    Ok(())
}

/// The page-size check a store makes before reading members.
pub fn member_page_size_check(page_size: usize) -> (r: Result<(), ListMembersError>)
    ensures
        page_size_accepted(page_size, MAX_MEMBER_PAGE_SIZE) ==> r is Ok,
        !page_size_accepted(page_size, MAX_MEMBER_PAGE_SIZE) ==> r == Err::<(), ListMembersError>(
            ListMembersError::InvalidPageSize { value: page_size, max: MAX_MEMBER_PAGE_SIZE },
        ),
{
    if page_size < 1 || page_size > MAX_MEMBER_PAGE_SIZE {
        return Err(ListMembersError::InvalidPageSize { value: page_size, max: MAX_MEMBER_PAGE_SIZE });
    }
    Ok(())
}

/// The page-size check a store makes before reading messages.
pub fn message_page_size_check(page_size: usize) -> (r: Result<(), ListMessagesError>)
    ensures
        page_size_accepted(page_size, MAX_MESSAGE_PAGE_SIZE) ==> r is Ok,
        !page_size_accepted(page_size, MAX_MESSAGE_PAGE_SIZE) ==> r == Err::<(), ListMessagesError>(
            ListMessagesError::InvalidPageSize { value: page_size, max: MAX_MESSAGE_PAGE_SIZE },
        ),
{
    if page_size < 1 || page_size > MAX_MESSAGE_PAGE_SIZE {
        return Err(ListMessagesError::InvalidPageSize { value: page_size, max: MAX_MESSAGE_PAGE_SIZE });
    }
    Ok(())
}


/// Adding a member succeeds exactly when the conversation exists, the actor
/// is stored as its owner, the user exists and is not yet a member; a
/// missing conversation, an actor who is not an owner, a missing user and an
/// existing membership each give their own error.
pub proof fn lemma_add_member_succeeds_exactly_for_owners_adding_new_users(
    conversation_exists: bool,
    actor_role: Option<Seq<char>>,
    user_exists: bool,
    existing_role: Option<Seq<char>>,
)
    ensures
        add_member_rule(conversation_exists, actor_role, user_exists, existing_role) is Ok
            <==> (conversation_exists && (actor_role matches Some(a) && role_named(a) == Some(
            MembershipRole::Owner,
        )) && user_exists && existing_role is None),
        !conversation_exists ==> add_member_rule(
            conversation_exists,
            actor_role,
            user_exists,
            existing_role,
        ) == Err::<(), AddMemberError>(AddMemberError::ConversationNotFound),
        (conversation_exists && (actor_role is None || (actor_role matches Some(a) && role_named(a)
            == Some(MembershipRole::Member)))) ==> add_member_rule(
            conversation_exists,
            actor_role,
            user_exists,
            existing_role,
        ) == Err::<(), AddMemberError>(AddMemberError::NotOwner),
        (conversation_exists && (actor_role matches Some(a) && role_named(a) == Some(
            MembershipRole::Owner,
        )) && !user_exists) ==> add_member_rule(
            conversation_exists,
            actor_role,
            user_exists,
            existing_role,
        ) == Err::<(), AddMemberError>(AddMemberError::UserNotFound),
        (conversation_exists && (actor_role matches Some(a) && role_named(a) == Some(
            MembershipRole::Owner,
        )) && user_exists && (existing_role matches Some(e) && role_named(e) is Some))
            ==> add_member_rule(conversation_exists, actor_role, user_exists, existing_role) == Err::<
            (),
            AddMemberError,
        >(AddMemberError::AlreadyMember),
{
}

/// Removing a membership succeeds exactly when the conversation exists, the
/// target is a readable plain membership, and the actor either is the
/// member leaving or is stored as the conversation's owner; the removed
/// membership is then the target's. A missing conversation, a missing
/// target, a removal of someone else by a non-owner, and the removal of an
/// owner each give their own error.
pub proof fn lemma_remove_member_succeeds_exactly_for_leaving_members_and_owners(
    actor_id: i64,
    user_id: i64,
    conversation_exists: bool,
    target: Option<Result<MembershipView, InvalidStoredData>>,
    actor_role: Option<Seq<char>>,
)
    ensures
        remove_member_rule(actor_id, user_id, conversation_exists, target, actor_role) is Ok <==> (
        conversation_exists && (target matches Some(Ok(m)) && m.role == MembershipRole::Member) && (
        actor_id == user_id || (actor_role matches Some(a) && role_named(a) == Some(
            MembershipRole::Owner,
        )))),
        remove_member_rule(actor_id, user_id, conversation_exists, target, actor_role) matches Ok(
            v,
        ) ==> target == Some(Ok::<MembershipView, InvalidStoredData>(v)),
        (conversation_exists && actor_id == user_id && (target matches Some(Ok(m)) && m.role
            == MembershipRole::Owner)) ==> remove_member_rule(
            actor_id,
            user_id,
            conversation_exists,
            target,
            actor_role,
        ) == Err::<MembershipView, RemoveMemberError>(RemoveMemberError::OwnerCannotLeave),
        !conversation_exists ==> remove_member_rule(
            actor_id,
            user_id,
            conversation_exists,
            target,
            actor_role,
        ) == Err::<MembershipView, RemoveMemberError>(RemoveMemberError::ConversationNotFound),
        (conversation_exists && target is None) ==> remove_member_rule(
            actor_id,
            user_id,
            conversation_exists,
            target,
            actor_role,
        ) == Err::<MembershipView, RemoveMemberError>(RemoveMemberError::NotMember),
        (conversation_exists && (target matches Some(Ok(_))) && actor_id != user_id && (actor_role is None
            || (actor_role matches Some(a) && role_named(a) == Some(MembershipRole::Member))))
            ==> remove_member_rule(actor_id, user_id, conversation_exists, target, actor_role)
            == Err::<MembershipView, RemoveMemberError>(RemoveMemberError::NotAuthorized),
        (conversation_exists && (target matches Some(Ok(m)) && m.role == MembershipRole::Owner)
            && (actor_role matches Some(a) && role_named(a) == Some(MembershipRole::Owner)))
            ==> remove_member_rule(actor_id, user_id, conversation_exists, target, actor_role)
            == Err::<MembershipView, RemoveMemberError>(RemoveMemberError::OwnerCannotLeave),
{
}

} // verus!
