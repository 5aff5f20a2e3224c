use chat::{
    system_time_from_millis, ConversationId, ConversationTitle, ConversationTitleError,
    DisplayName, DisplayNameError, MessageBody, MessageBodyError, MessageId, UserId,
    MAX_CONVERSATION_TITLE_CHARS, MAX_DISPLAY_NAME_CHARS, MAX_MESSAGE_BODY_CHARS,
};

#[test]
fn ids_accept_positive_database_values() {
    let id = UserId::new(42).expect("42 is a positive ID");

    assert_eq!(id.get(), 42);
    assert_eq!(id.to_string(), "42");
}

#[test]
fn ids_reject_zero_and_negative_values() {
    assert_eq!(UserId::new(0).unwrap_err().value(), 0);
    assert_eq!(ConversationId::new(-1).unwrap_err().value(), -1);
    assert_eq!(MessageId::new(i64::MIN).unwrap_err().value(), i64::MIN);
}

#[test]
fn invalid_id_message_names_the_rejected_value() {
    assert_eq!(
        UserId::new(-7).unwrap_err().message(),
        "an ID must be positive, got -7"
    );
    assert_eq!(
        MessageId::new(i64::MIN).unwrap_err().message(),
        "an ID must be positive, got -9223372036854775808"
    );
}

#[test]
fn ids_convert_to_and_from_database_values() {
    let id = ConversationId::try_from(9_i64).expect("9 is a positive ID");
    assert_eq!(i64::from(id), 9);
    assert!(MessageId::try_from(0_i64).is_err());
    assert_eq!(MessageId::new(i64::MAX).unwrap().to_string(), "9223372036854775807");
}

#[test]
fn conversation_title_rejects_empty_and_long_input() {
    assert_eq!(
        ConversationTitle::try_from("\n\t"),
        Err(ConversationTitleError::Empty)
    );
    assert_eq!(
        ConversationTitle::try_from("General\nChat"),
        Err(ConversationTitleError::ContainsControlCharacter)
    );
    assert_eq!(
        ConversationTitle::try_from("a".repeat(MAX_CONVERSATION_TITLE_CHARS + 1)),
        Err(ConversationTitleError::TooLong {
            max_chars: MAX_CONVERSATION_TITLE_CHARS,
            actual_chars: MAX_CONVERSATION_TITLE_CHARS + 1,
        })
    );
}

#[test]
fn conversation_title_is_trimmed() {
    let title = ConversationTitle::try_from("  General  ").expect("the title is valid");
    assert_eq!(title.as_str(), "General");
    assert!(ConversationTitle::try_from("a".repeat(MAX_CONVERSATION_TITLE_CHARS)).is_ok());
}

#[test]
fn message_body_preserves_valid_input() {
    let body = MessageBody::try_from("  hello  ").expect("the body is valid");

    assert_eq!(body.as_str(), "  hello  ");
}

#[test]
fn message_body_rejects_whitespace_only_input() {
    assert_eq!(MessageBody::try_from(" \n\t"), Err(MessageBodyError::Empty));
}

#[test]
fn message_body_counts_unicode_scalars() {
    let accepted = "界".repeat(MAX_MESSAGE_BODY_CHARS);
    let rejected = "界".repeat(MAX_MESSAGE_BODY_CHARS + 1);

    assert!(MessageBody::try_from(accepted).is_ok());
    assert_eq!(
        MessageBody::try_from(rejected),
        Err(MessageBodyError::TooLong {
            max_chars: MAX_MESSAGE_BODY_CHARS,
            actual_chars: MAX_MESSAGE_BODY_CHARS + 1,
        })
    );
}

#[test]
fn message_body_keeps_control_characters() {
    let body = MessageBody::try_from("line one\nline two").expect("the body is valid");
    assert_eq!(body.as_str(), "line one\nline two");
}

#[test]
fn display_name_preserves_valid_input() {
    let name = DisplayName::try_from(" Yuito ").expect("the name is valid");

    assert_eq!(name.as_str(), "Yuito");
}

#[test]
fn display_name_rejects_empty_and_long_input() {
    assert_eq!(DisplayName::try_from("  "), Err(DisplayNameError::Empty));
    assert_eq!(
        DisplayName::try_from("Yui\nto"),
        Err(DisplayNameError::ContainsControlCharacter)
    );
    assert_eq!(
        DisplayName::try_from("a".repeat(MAX_DISPLAY_NAME_CHARS + 1)),
        Err(DisplayNameError::TooLong {
            max_chars: MAX_DISPLAY_NAME_CHARS,
            actual_chars: MAX_DISPLAY_NAME_CHARS + 1,
        })
    );
}

#[test]
fn display_name_trims_unicode_white_space() {
    let name = DisplayName::try_from("\u{3000}Yuito\u{2003}").expect("the name is valid");
    assert_eq!(name.as_str(), "Yuito");
}

#[test]
fn timestamp_conversion_rejects_negative_values() {
    assert!(system_time_from_millis(-1).is_err());
}

#[test]
fn timestamp_conversion_counts_milliseconds_from_the_epoch() {
    let t = system_time_from_millis(1_500).expect("the timestamp is representable");
    let elapsed = t.duration_since(std::time::UNIX_EPOCH).unwrap();
    assert_eq!(elapsed.as_millis(), 1_500);
    assert_eq!(chat::auth::unix_time_millis(t).unwrap(), 1_500);
}

#[test]
fn validation_errors_describe_the_rule_they_break() {
    assert_eq!(
        DisplayNameError::TooLong {
            max_chars: 64,
            actual_chars: 65
        }
        .message(),
        "a display name can contain at most 64 characters, got 65"
    );
    assert_eq!(
        ConversationTitleError::ContainsControlCharacter.message(),
        "a conversation title cannot contain control characters"
    );
    assert_eq!(MessageBodyError::Empty.message(), "a message body cannot be empty");
    assert_eq!(
        chat::CreateConversationError::InvalidTitle(ConversationTitleError::Empty).message(),
        "a conversation title cannot be empty"
    );
    assert_eq!(
        chat::PostMessageError::InvalidBody(MessageBodyError::TooLong {
            max_chars: 4000,
            actual_chars: 4001
        })
        .message(),
        "a message body can contain at most 4000 characters, got 4001"
    );
}

#[test]
fn use_case_errors_describe_what_failed() {
    assert_eq!(
        chat::ListConversationsError::InvalidPageSize { value: 0, max: 100 }.message(),
        "page size must be between 1 and 100, got 0"
    );
    assert_eq!(
        chat::AddMemberError::NotOwner.message(),
        "only a conversation owner can add members"
    );
    assert_eq!(
        chat::RemoveMemberError::OwnerCannotLeave.message(),
        "a conversation owner cannot be removed"
    );
    assert_eq!(chat::GetMessageError::NotFound.message(), "message not found");
    assert_eq!(
        chat::CreateUserError::StoreUnavailable.message(),
        "the store is unavailable"
    );
    assert_eq!(
        chat::InvalidConversationMember.message(),
        "the user does not match the membership"
    );
}

#[test]
fn validated_text_is_readable_as_a_string_slice() {
    let name = DisplayName::try_from(" Yuito ").unwrap();
    let title = ConversationTitle::try_from("General").unwrap();
    let body = MessageBody::try_from(" hi ").unwrap();
    assert_eq!(AsRef::<str>::as_ref(&name), "Yuito");
    assert_eq!(AsRef::<str>::as_ref(&title), "General");
    assert_eq!(AsRef::<str>::as_ref(&body), " hi ");
}

fn member_row(
    role: Option<&str>,
    display_name: Option<&str>,
) -> chat::OptionalConversationMemberRow {
    chat::OptionalConversationMemberRow {
        viewer_role: String::from("member"),
        conversation_id: Some(3),
        user_id: Some(7),
        role: role.map(String::from),
        joined_at_ms: Some(1_000),
        display_name: display_name.map(String::from),
        user_created_at_ms: Some(500),
    }
}

#[test]
fn optional_member_row_without_member_columns_reads_as_no_member() {
    let row = chat::OptionalConversationMemberRow {
        viewer_role: String::from("owner"),
        conversation_id: None,
        user_id: None,
        role: None,
        joined_at_ms: None,
        display_name: None,
        user_created_at_ms: None,
    };

    assert!(matches!(row.into_member(), Ok(None)));
}

#[test]
fn optional_member_row_with_all_member_columns_reads_the_member() {
    let member = member_row(Some("owner"), Some("Ada"))
        .into_member()
        .expect("the row is valid")
        .expect("the row carries a member");

    assert_eq!(member.user().id().get(), 7);
    assert_eq!(member.user().display_name().as_str(), "Ada");
    assert_eq!(member.membership().role(), chat::MembershipRole::Owner);
}

#[test]
fn optional_member_row_partly_present_or_invalid_is_rejected() {
    assert_eq!(
        member_row(None, Some("Ada")).into_member().err(),
        Some(chat::InvalidStoredData)
    );
    assert_eq!(
        member_row(Some("admin"), Some("Ada")).into_member().err(),
        Some(chat::InvalidStoredData)
    );
    assert_eq!(
        member_row(Some("member"), Some(" Ada ")).into_member().err(),
        Some(chat::InvalidStoredData)
    );
}

#[test]
fn stored_values_with_a_read_timestamp_build_the_user() {
    let created_at = std::time::UNIX_EPOCH + std::time::Duration::from_millis(1_500);
    let user = chat::user_from_stored(4, "Ada", created_at).expect("the values fit");

    assert_eq!(user.id().get(), 4);
    assert_eq!(user.display_name().as_str(), "Ada");
    assert_eq!(*user.created_at(), created_at);
    assert!(chat::user_from_stored(0, "Ada", created_at).is_err());
    assert!(chat::user_from_stored(4, " Ada", created_at).is_err());
}

#[test]
fn stored_member_values_name_the_same_user_in_both_parts() {
    let at = std::time::UNIX_EPOCH;
    let member = chat::member_from_stored(3, 9, "member", at, "Bea", at).expect("the values fit");

    assert_eq!(member.user().id().get(), 9);
    assert_eq!(member.membership().user_id().get(), 9);
    assert!(chat::member_from_stored(3, 9, "guest", at, "Bea", at).is_err());
}

#[test]
fn empty_row_sets_give_an_empty_conversation_page() {
    let page = chat::conversation_page_from_rows(Vec::new(), 10).expect("no rows is an empty page");

    assert!(page.conversations().is_empty());
    assert_eq!(page.next_cursor(), None);
}

#[test]
fn a_membership_without_messages_gives_an_empty_message_page() {
    let row = chat::OptionalMessageRow {
        viewer_role: String::from("member"),
        id: None,
        conversation_id: None,
        author_id: None,
        body: None,
        created_at_ms: None,
    };
    let page = chat::message_page_from_rows(vec![row], 10).expect("the reader may see the conversation");

    assert!(page.messages().is_empty());
    assert_eq!(page.next_cursor(), None);
}

#[test]
fn pending_logins_are_refused_at_the_bound() {
    let (after, result) = chat::auth::pending_login_step(0);
    assert_eq!(after, 1);
    assert!(result.is_ok());

    let bound = chat::auth::MAX_PENDING_LOGINS;
    let (after, result) = chat::auth::pending_login_step(bound - 1);
    assert_eq!(after, bound);
    assert!(result.is_ok());

    let (after, result) = chat::auth::pending_login_step(bound);
    assert_eq!(after, bound);
    assert!(matches!(result, Err(chat::auth::AuthError::LoginCapacityReached)));
}

fn message_row(id: Option<i64>) -> chat::OptionalMessageRow {
    chat::OptionalMessageRow {
        viewer_role: String::from("owner"),
        id,
        conversation_id: Some(2),
        author_id: Some(5),
        body: Some(String::from("hello")),
        created_at_ms: Some(3_000),
    }
}

#[test]
fn message_rows_with_read_timestamps_give_their_messages() {
    let at = std::time::UNIX_EPOCH + std::time::Duration::from_millis(3_000);
    let page = chat::message_page_from_read_rows(vec![(message_row(Some(11)), Some(at))], 10)
        .expect("the row fits and its timestamp was read");

    assert_eq!(page.messages().len(), 1);
    assert_eq!(page.messages()[0].id().get(), 11);
    assert_eq!(*page.messages()[0].created_at(), at);
    assert_eq!(
        chat::message_page_from_read_rows(vec![(message_row(Some(11)), None)], 10).err(),
        Some(chat::ListMessagesError::InvalidStoreResult)
    );
    assert_eq!(
        chat::message_page_from_read_rows(Vec::new(), 10).err(),
        Some(chat::ListMessagesError::NotFound)
    );
}

#[test]
fn member_rows_with_read_timestamps_give_their_members() {
    let at = std::time::UNIX_EPOCH;
    let page = chat::member_page_from_read_rows(
        vec![(member_row(Some("member"), Some("Ada")), (Some(at), Some(at)))],
        10,
    )
    .expect("the row fits and its timestamps were read");

    assert_eq!(page.members().len(), 1);
    assert_eq!(page.members()[0].user().id().get(), 7);
    assert_eq!(
        chat::member_page_from_read_rows(
            vec![(member_row(Some("member"), Some("Ada")), (Some(at), None))],
            10,
        )
        .err(),
        Some(chat::ListMembersError::InvalidStoreResult)
    );
}

#[test]
fn conversation_rows_with_read_timestamps_give_their_summaries() {
    let row = chat::ConversationWithRoleRow {
        id: 8,
        title: String::from("General"),
        created_at_ms: 0,
        role: String::from("owner"),
    };
    let page = chat::conversation_page_from_read_rows(vec![(row, Some(std::time::UNIX_EPOCH))], 10)
        .expect("the row fits and its timestamp was read");

    assert_eq!(page.conversations().len(), 1);
    assert_eq!(page.conversations()[0].conversation().id().get(), 8);
}

#[test]
fn stores_refuse_page_sizes_outside_the_accepted_range() {
    assert!(chat::conversation_page_size_check(1).is_ok());
    assert_eq!(
        chat::conversation_page_size_check(0),
        Err(chat::ListConversationsError::InvalidPageSize { value: 0, max: 100 })
    );
    assert_eq!(
        chat::member_page_size_check(201),
        Err(chat::ListMembersError::InvalidPageSize { value: 201, max: 200 })
    );
    assert!(chat::message_page_size_check(100).is_ok());
    assert!(chat::message_page_size_check(101).is_err());
}
