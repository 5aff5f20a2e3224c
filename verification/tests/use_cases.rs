use std::time::SystemTime;

use chat::{
    AddMember, AddMemberError, Chat, ChatEvent, Conversation, ConversationDetails,
    ConversationId, ConversationMember, ConversationPage, ConversationSummary, ConversationTitle,
    CreateConversation, CreateConversationError, CreateUser, CreateUserError,
    CreatedConversation, DisplayName, GetConversationError, GetMessageError, ListConversations,
    ListConversationsError, ListMembers, ListMembersError, ListMessages, ListMessagesError,
    MemberPage, Membership, MembershipRole, Message, MessageBody, MessageBodyError, MessageId,
    MessagePage, NewConversation, NewMessage, PostMessage, PostMessageError, RemoveMember,
    RemoveMemberError, User, UserId, MAX_CONVERSATION_PAGE_SIZE, MAX_MEMBER_PAGE_SIZE,
    MAX_MESSAGE_PAGE_SIZE,
};

fn user_id(value: i64) -> UserId {
    UserId::new(value).expect("the fixture user ID is valid")
}

fn conversation_id(value: i64) -> ConversationId {
    ConversationId::new(value).expect("the fixture conversation ID is valid")
}

fn user(value: i64, name: &str) -> User {
    User::new(
        user_id(value),
        DisplayName::try_from(name).expect("the fixture name is valid"),
        SystemTime::UNIX_EPOCH,
    )
}

fn conversation(value: i64, title: &str) -> Conversation {
    Conversation::new(
        conversation_id(value),
        ConversationTitle::try_from(title).expect("the fixture title is valid"),
        SystemTime::UNIX_EPOCH,
    )
}

fn membership(user: i64, role: MembershipRole) -> Membership {
    Membership::new(
        conversation_id(20),
        user_id(user),
        role,
        SystemTime::UNIX_EPOCH,
    )
}

fn message(id: MessageId, conversation_id: ConversationId, author_id: UserId) -> Message {
    Message::new(
        id,
        conversation_id,
        author_id,
        MessageBody::try_from("hello").expect("the fixture body is valid"),
        SystemTime::UNIX_EPOCH,
    )
}

/// What a store that creates the conversation with the given creator role answers.
fn write_conversation(
    new: &NewConversation,
    role: MembershipRole,
) -> Result<CreatedConversation, CreateConversationError> {
    let conversation = Conversation::new(
        conversation_id(20),
        new.title().clone(),
        SystemTime::UNIX_EPOCH,
    );
    let membership = Membership::new(
        conversation.id(),
        new.creator_id(),
        role,
        SystemTime::UNIX_EPOCH,
    );
    Ok(CreatedConversation::new(conversation, membership))
}

/// What a store that persists the message under ID 30 answers.
fn store_message(new: &NewMessage) -> Result<Message, PostMessageError> {
    Ok(Message::new(
        MessageId::new(30).expect("the fixture ID is valid"),
        new.conversation_id(),
        new.author_id(),
        new.body().clone(),
        SystemTime::UNIX_EPOCH,
    ))
}

#[test]
fn create_user_validates_persists_and_emits_an_event() {
    let chat = Chat::new(());
    let request = chat
        .create_user_request(&CreateUser::new("Yuito"))
        .expect("the name is valid");
    let stored = Ok(User::new(
        user_id(10),
        request.display_name().clone(),
        SystemTime::UNIX_EPOCH,
    ));
    let result = chat
        .create_user_outcome(&request, stored)
        .expect("the user should be created");

    assert_eq!(result.user().display_name().as_str(), "Yuito");
    assert_eq!(
        result.events(),
        &[ChatEvent::UserCreated {
            user: result.user().clone(),
        }]
    );
}

#[test]
fn create_conversation_requires_an_owner_membership() {
    let chat = Chat::new(());
    let command = CreateConversation::new("General");
    let request = chat
        .create_conversation_request(user_id(10), &command)
        .expect("the title is valid");

    let valid = chat
        .create_conversation_outcome(&request, write_conversation(&request, MembershipRole::Owner))
        .expect("the conversation should be created");

    assert_eq!(valid.conversation().title().as_str(), "General");
    assert_eq!(valid.creator_membership().role(), MembershipRole::Owner);
    assert_eq!(valid.events().len(), 1);

    let invalid = chat
        .create_conversation_outcome(&request, write_conversation(&request, MembershipRole::Member))
        .expect_err("the creator must be an owner");

    assert_eq!(invalid, CreateConversationError::InvalidStoreResult);
}

#[test]
fn membership_mutations_return_the_changed_membership_and_event() {
    let chat = Chat::new(());
    let add = AddMember::new(conversation_id(20), user_id(11));
    let new = chat.add_member_request(user_id(10), add);
    assert_eq!(new.actor_id(), user_id(10));
    let stored = Ok(Membership::new(
        new.conversation_id(),
        new.user_id(),
        MembershipRole::Member,
        SystemTime::UNIX_EPOCH,
    ));
    let added = chat
        .add_member_outcome(add, stored)
        .expect("the member should be added");

    assert_eq!(added.membership().user_id(), user_id(11));
    assert!(matches!(added.events(), [ChatEvent::MemberAdded { .. }]));

    let remove = RemoveMember::new(conversation_id(20), user_id(11));
    let removal = chat.remove_member_request(user_id(10), remove);
    assert_eq!(removal.actor_id(), user_id(10));
    let stored = Ok(Membership::new(
        removal.conversation_id(),
        removal.user_id(),
        MembershipRole::Member,
        SystemTime::UNIX_EPOCH,
    ));
    let removed = chat
        .remove_member_outcome(remove, stored)
        .expect("the member should be removed");

    assert_eq!(removed.membership().user_id(), user_id(11));
    assert!(matches!(
        removed.events(),
        [ChatEvent::MemberRemoved { .. }]
    ));
}

#[test]
fn read_use_cases_return_purpose_built_results() {
    let chat = Chat::new(());
    let actor = user_id(10);
    let conversation_id = conversation_id(20);

    let details = chat
        .get_conversation_outcome(
            conversation_id,
            Ok(ConversationDetails::new(
                conversation(conversation_id.get(), "General"),
                MembershipRole::Owner,
            )),
        )
        .expect("the conversation should be visible");
    assert_eq!(details.role(), MembershipRole::Owner);

    let query = ListConversations::new();
    chat.list_conversations_request(query)
        .expect("the default page size is accepted");
    let conversations = chat
        .list_conversations_outcome(
            query,
            Ok(ConversationPage::new(
                vec![ConversationSummary::new(
                    conversation(20, "General"),
                    MembershipRole::Owner,
                )],
                None,
            )),
        )
        .expect("conversations should be readable");
    assert_eq!(conversations.conversations().len(), 1);

    let query = ListMembers::new(conversation_id);
    chat.list_members_request(query)
        .expect("the default page size is accepted");
    let members = chat
        .list_members_outcome(
            query,
            Ok(MemberPage::new(
                vec![
                    ConversationMember::new(user(10, "Yuito"), membership(10, MembershipRole::Owner))
                        .expect("the fixture user and membership match"),
                ],
                None,
            )),
        )
        .expect("members should be readable");
    assert_eq!(members.members()[0].user().display_name().as_str(), "Yuito");

    let query = ListMessages::new(conversation_id);
    chat.list_messages_request(query)
        .expect("the default page size is accepted");
    let stored = message(
        MessageId::new(30).expect("the fixture message ID is valid"),
        query.conversation_id(),
        actor,
    );
    let messages = chat
        .list_messages_outcome(query, Ok(MessagePage::new(vec![stored], None)))
        .expect("messages should be readable");
    assert_eq!(messages.messages()[0].body().as_str(), "hello");
}

fn ids() -> (UserId, ConversationId, MessageId) {
    (
        UserId::new(1).expect("the fixture user ID is valid"),
        ConversationId::new(2).expect("the fixture conversation ID is valid"),
        MessageId::new(3).expect("the fixture message ID is valid"),
    )
}

#[test]
fn matching_message_is_returned() {
    let (actor, conversation, message_id) = ids();
    let result = Chat::new(())
        .get_message_outcome(conversation, message_id, Ok(message(message_id, conversation, actor)))
        .expect("the message should be returned");

    assert_eq!(result.id(), message_id);
    assert_eq!(result.conversation_id(), conversation);
}

#[test]
fn inconsistent_store_results_are_rejected() {
    let (actor, conversation, message_id) = ids();
    let wrong_message = message(
        MessageId::new(message_id.get() + 1).expect("the fixture message ID is valid"),
        conversation,
        actor,
    );
    let wrong_conversation = message(
        message_id,
        ConversationId::new(conversation.get() + 1).expect("the fixture conversation ID is valid"),
        actor,
    );
    for stored in [wrong_message, wrong_conversation] {
        let error = Chat::new(())
            .get_message_outcome(conversation, message_id, Ok(stored))
            .expect_err("the returned message does not match the request");
        assert_eq!(error, GetMessageError::InvalidStoreResult);
    }
}

#[test]
fn store_failures_are_preserved() {
    let (_, conversation, message_id) = ids();
    for expected in [GetMessageError::NotFound, GetMessageError::StoreUnavailable] {
        let error = Chat::new(())
            .get_message_outcome(conversation, message_id, Err(expected))
            .expect_err("the store failure should fail the use case");
        assert_eq!(error, expected);
    }
}

#[test]
fn posting_a_message_persists_it_before_producing_an_event() {
    let chat = Chat::new(());
    let request = chat
        .post_message_request(user_id(10), &PostMessage::new(conversation_id(20), "hello"))
        .expect("the body is valid");

    assert_eq!(request.author_id(), user_id(10));
    assert_eq!(request.conversation_id(), conversation_id(20));
    assert_eq!(request.body().as_str(), "hello");

    let result = chat
        .post_message_outcome(&request, store_message(&request))
        .expect("the message should be posted");
    assert_eq!(result.message().id().get(), 30);
    assert_eq!(
        result.events(),
        &[ChatEvent::MessagePosted {
            message: result.message().clone(),
        }]
    );
}

#[test]
fn invalid_bodies_are_rejected_before_the_store_is_called() {
    let chat = Chat::new(());
    let error = chat
        .post_message_request(user_id(10), &PostMessage::new(conversation_id(20), "   "))
        .expect_err("a whitespace-only body should be rejected");

    assert_eq!(
        error,
        PostMessageError::InvalidBody(MessageBodyError::Empty)
    );
}

#[test]
fn store_failures_are_exposed_as_use_case_errors() {
    let cases = [
        PostMessageError::ConversationNotFound,
        PostMessageError::AuthorNotMember,
        PostMessageError::StoreUnavailable,
    ];

    for expected in cases {
        let chat = Chat::new(());
        let request = chat
            .post_message_request(user_id(10), &PostMessage::new(conversation_id(20), "hello"))
            .expect("the body is valid");
        let error = chat
            .post_message_outcome(&request, Err(expected))
            .expect_err("the store failure should fail the use case");

        assert_eq!(error, expected);
    }
}

#[test]
fn posted_message_with_another_body_is_an_invalid_store_result() {
    let chat = Chat::new(());
    let request = chat
        .post_message_request(user_id(10), &PostMessage::new(conversation_id(20), "hello"))
        .expect("the body is valid");
    let stored = Message::new(
        MessageId::new(30).expect("the fixture ID is valid"),
        conversation_id(20),
        user_id(10),
        MessageBody::try_from("other").expect("the fixture body is valid"),
        SystemTime::UNIX_EPOCH,
    );
    assert_eq!(
        chat.post_message_outcome(&request, Ok(stored)),
        Err(PostMessageError::InvalidStoreResult)
    );
}

#[test]
fn mutations_reject_inconsistent_store_results() {
    let chat = Chat::new(());
    let request = chat
        .create_user_request(&CreateUser::new("Expected"))
        .expect("the name is valid");
    let stored = Ok(User::new(
        user_id(1),
        DisplayName::try_from("Different").expect("the fixture name is valid"),
        SystemTime::UNIX_EPOCH,
    ));
    let error = chat
        .create_user_outcome(&request, stored)
        .expect_err("the returned display name does not match the command");

    assert_eq!(error, CreateUserError::InvalidStoreResult);
}

#[test]
fn membership_mutations_reject_the_wrong_target() {
    let chat = Chat::new(());
    let command = AddMember::new(conversation_id(2), user_id(3));
    let new = chat.add_member_request(user_id(1), command);
    let stored = Ok(Membership::new(
        new.conversation_id(),
        user_id(999),
        MembershipRole::Member,
        SystemTime::UNIX_EPOCH,
    ));
    let error = chat
        .add_member_outcome(command, stored)
        .expect_err("the returned membership targets another user");

    assert_eq!(error, AddMemberError::InvalidStoreResult);
}

#[test]
fn removed_membership_of_an_owner_is_an_invalid_store_result() {
    let chat = Chat::new(());
    let command = RemoveMember::new(conversation_id(20), user_id(11));
    let stored = Ok(membership(11, MembershipRole::Owner));
    assert!(matches!(
        chat.remove_member_outcome(command, stored),
        Err(RemoveMemberError::InvalidStoreResult)
    ));
    assert!(matches!(
        chat.remove_member_outcome(command, Err(RemoveMemberError::OwnerCannotLeave)),
        Err(RemoveMemberError::OwnerCannotLeave)
    ));
}

#[test]
fn message_queries_reject_pages_that_are_not_newest_first() {
    let chat = Chat::new(());
    let actor = user_id(1);
    let query = ListMessages::new(conversation_id(2));
    let newer = Message::new(
        MessageId::new(10).expect("the fixture message ID is valid"),
        query.conversation_id(),
        actor,
        MessageBody::try_from("newer").expect("the fixture body is valid"),
        SystemTime::UNIX_EPOCH,
    );
    let older = Message::new(
        MessageId::new(11).expect("the fixture message ID is valid"),
        query.conversation_id(),
        actor,
        MessageBody::try_from("older").expect("the fixture body is valid"),
        SystemTime::UNIX_EPOCH,
    );
    let error = chat
        .list_messages_outcome(query, Ok(MessagePage::new(vec![newer, older], None)))
        .expect_err("message IDs must be strictly descending");

    assert_eq!(error, ListMessagesError::InvalidStoreResult);
}

#[test]
fn conversation_queries_reject_pages_that_are_not_newest_first() {
    let summary = |id| {
        ConversationSummary::new(
            Conversation::new(
                conversation_id(id),
                ConversationTitle::try_from("General").expect("the fixture title is valid"),
                SystemTime::UNIX_EPOCH,
            ),
            MembershipRole::Member,
        )
    };
    let error = Chat::new(())
        .list_conversations_outcome(
            ListConversations::new(),
            Ok(ConversationPage::new(vec![summary(10), summary(11)], None)),
        )
        .expect_err("conversation IDs must be strictly descending");

    assert_eq!(error, ListConversationsError::InvalidStoreResult);
}

#[test]
fn member_queries_reject_pages_that_are_not_in_user_id_order() {
    let query = ListMembers::new(conversation_id(2));
    let member = |id| {
        let user_id = user_id(id);
        ConversationMember::new(
            User::new(
                user_id,
                DisplayName::try_from(format!("User {id}"))
                    .expect("the fixture display name is valid"),
                SystemTime::UNIX_EPOCH,
            ),
            Membership::new(
                query.conversation_id(),
                user_id,
                MembershipRole::Member,
                SystemTime::UNIX_EPOCH,
            ),
        )
        .expect("the fixture user and membership match")
    };
    let error = Chat::new(())
        .list_members_outcome(query, Ok(MemberPage::new(vec![member(2), member(1)], None)))
        .expect_err("member IDs must be strictly ascending");

    assert_eq!(error, ListMembersError::InvalidStoreResult);
}

#[test]
fn list_conversations_invalid_page_size_is_rejected_before_reading() {
    let chat = Chat::new(());
    for value in [0, MAX_CONVERSATION_PAGE_SIZE + 1] {
        let error = chat
            .list_conversations_request(ListConversations::new().limit(value))
            .expect_err("the page size is outside the accepted range");

        assert_eq!(
            error,
            ListConversationsError::InvalidPageSize {
                value,
                max: MAX_CONVERSATION_PAGE_SIZE,
            }
        );
    }
}

#[test]
fn list_members_invalid_page_size_is_rejected_before_reading() {
    let chat = Chat::new(());
    let conversation = ConversationId::new(2).expect("the fixture conversation ID is valid");
    for value in [0, MAX_MEMBER_PAGE_SIZE + 1] {
        let error = chat
            .list_members_request(ListMembers::new(conversation).limit(value))
            .expect_err("the page size is outside the accepted range");

        assert_eq!(
            error,
            ListMembersError::InvalidPageSize {
                value,
                max: MAX_MEMBER_PAGE_SIZE,
            }
        );
    }
}

#[test]
fn list_messages_invalid_page_size_is_rejected_before_reading() {
    let chat = Chat::new(());
    let conversation = ConversationId::new(2).expect("the fixture ID is valid");
    for value in [0, MAX_MESSAGE_PAGE_SIZE + 1] {
        let error = chat
            .list_messages_request(ListMessages::new(conversation).limit(value))
            .expect_err("the page size is outside the accepted range");

        assert_eq!(
            error,
            ListMessagesError::InvalidPageSize {
                value,
                max: MAX_MESSAGE_PAGE_SIZE,
            }
        );
    }
}

#[test]
fn conversation_pages_cut_at_the_page_size_and_name_the_last_row() {
    let rows: Vec<ConversationSummary> = [30, 20, 10]
        .iter()
        .map(|id| ConversationSummary::new(conversation(*id, "General"), MembershipRole::Member))
        .collect();
    let page = ConversationPage::from_rows(rows, 2);
    assert_eq!(page.conversations().len(), 2);
    assert_eq!(page.next_cursor(), Some(conversation_id(20)));

    let rows = vec![ConversationSummary::new(conversation(5, "General"), MembershipRole::Owner)];
    let page = ConversationPage::from_rows(rows, 2);
    assert_eq!(page.conversations().len(), 1);
    assert_eq!(page.next_cursor(), None);
}

#[test]
fn message_page_with_a_cursor_outside_the_page_is_rejected() {
    let chat = Chat::new(());
    let actor = user_id(1);
    let query = ListMessages::new(conversation_id(2)).limit(1);
    let only = message(MessageId::new(7).unwrap(), conversation_id(2), actor);
    assert!(chat
        .list_messages_outcome(query, Ok(MessagePage::new(vec![only.clone()], Some(MessageId::new(7).unwrap()))))
        .is_ok());
    assert_eq!(
        chat.list_messages_outcome(query, Ok(MessagePage::new(vec![only], Some(MessageId::new(6).unwrap())))),
        Err(ListMessagesError::InvalidStoreResult)
    );
    let before = ListMessages::new(conversation_id(2)).before(MessageId::new(5).unwrap());
    let newer = message(MessageId::new(7).unwrap(), conversation_id(2), actor);
    assert_eq!(
        chat.list_messages_outcome(before, Ok(MessagePage::new(vec![newer], None))),
        Err(ListMessagesError::InvalidStoreResult)
    );
}

#[test]
fn conversation_details_for_another_conversation_are_rejected() {
    let chat = Chat::new(());
    let stored = ConversationDetails::new(conversation(21, "General"), MembershipRole::Member);
    assert_eq!(
        chat.get_conversation_outcome(conversation_id(20), Ok(stored)),
        Err(GetConversationError::InvalidStoreResult)
    );
    assert_eq!(
        chat.get_conversation_outcome(conversation_id(20), Err(GetConversationError::NotFound)),
        Err(GetConversationError::NotFound)
    );
}
