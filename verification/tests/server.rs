use std::sync::Arc;
use std::time::{Duration, SystemTime};

use chat::auth::{AuthError, VerifiedIdentity, DEFAULT_DISPLAY_NAME, MAX_SUBJECT_BYTES};
use chat::config::{
    is_loopback_host, parse_admission_mode, parse_oidc, parse_public_url, validate_web_origin,
    SettingError, OIDC_CLIENT_SECRET_ENV,
};
use chat::connection::{
    after_answer, be_bytes_of, plan_client_message, unsubscribe_step, upgrade_refusal,
    ClientPlan, ConnectionAction, ConnectionEvent, ConnectionState, ControlOutcome, ControlStep,
    SendResult,
};
use chat::cookies::{
    cookie_value, CookieError, CookiePolicy, SESSION_COOKIE_HTTP, SESSION_COOKIE_HTTPS,
};
use chat::hub::{CapacityError, ConnectionRegistration, HubState, SessionFingerprint, SubscribeResult};
use chat::login::{
    admission_step, auth_operation_problem, mutation_check, refresh_due, same_origin, AdmissionStep,
    OidcCallback, MAX_AUTHORIZATION_CODE_BYTES,
};
use chat::operator::{admission_code_lifetime_ms, parse_command, Command, CommandError};
use chat::realtime::{
    event_notifications, ClientMessage, CloseDirective, NotificationTarget, RealtimeSettings,
    ServerMessage, SubscriptionRejection,
};
use chat::representation::created_message;
use chat::token::SecretToken;
use chat::{
    AdmissionMode, CreateAdmissionCodeError, Chat, ChatEvent, ConversationId, Message, MessageBody, MessageId,
    PostMessage, UserId, MAX_ADMISSION_CODE_LIFETIME_HOURS,
};

fn url(text: &str) -> chat::config::UrlParts {
    parse_public_url(Some(text.to_string())).expect("URL is valid")
}

#[test]
fn verified_identity_uses_valid_profile_or_neutral_fallback() {
    let named = VerifiedIdentity::new("issuer".to_string(), "subject".to_string(), Some(" Alice "))
        .expect("identity is valid");
    assert_eq!(named.display_name().as_str(), "Alice");

    let fallback = VerifiedIdentity::new("issuer".to_string(), "subject".to_string(), Some("   "))
        .expect("identity is valid");
    assert_eq!(fallback.display_name().as_str(), DEFAULT_DISPLAY_NAME);
}

#[test]
fn verified_identity_rejects_empty_or_oversized_keys() {
    assert!(matches!(
        VerifiedIdentity::new(String::new(), "subject".to_string(), None),
        Err(AuthError::InvalidIdentity)
    ));
    assert!(matches!(
        VerifiedIdentity::new("issuer".to_string(), "x".repeat(MAX_SUBJECT_BYTES + 1), None),
        Err(AuthError::InvalidIdentity)
    ));
}

#[test]
fn verified_identity_without_a_profile_name_uses_the_fallback() {
    let identity = VerifiedIdentity::new("issuer".to_string(), "x".repeat(MAX_SUBJECT_BYTES), None)
        .expect("a subject at the limit is valid");
    assert_eq!(identity.display_name().as_str(), DEFAULT_DISPLAY_NAME);
    assert_eq!(identity.authority(), "issuer");
}

#[test]
fn https_session_cookie_has_host_prefix_and_security_attributes() {
    let cookie = CookiePolicy::new(&url("https://chat.example.com")).session_cookie(String::from("token"));

    assert_eq!(cookie.name(), SESSION_COOKIE_HTTPS);
    assert_eq!(cookie.path(), Some("/"));
    assert_eq!(cookie.domain(), None);
    assert_eq!(cookie.secure(), Some(true));
    assert_eq!(cookie.http_only(), Some(true));
    assert_eq!(cookie.same_site(), Some(cookie::SameSite::Lax));
}

#[test]
fn loopback_cookie_is_not_marked_secure_and_can_be_parsed() {
    let policy = CookiePolicy::new(&url("http://127.0.0.1:3000"));
    let cookie = policy.session_cookie(String::from("token"));

    assert_eq!(cookie.name(), SESSION_COOKIE_HTTP);
    assert_eq!(cookie.secure(), Some(false));
    assert_eq!(
        policy.find("a=b; chat_session=token", cookie.name()),
        Ok(Some(String::from("token")))
    );
}

#[test]
fn duplicate_or_malformed_security_cookies_are_rejected() {
    let policy = CookiePolicy::new(&url("https://chat.example.com"));

    assert_eq!(
        policy.find(
            "__Host-chat_session=first; __Host-chat_session=second",
            SESSION_COOKIE_HTTPS,
        ),
        Err(CookieError)
    );
    assert_eq!(policy.find("=value", SESSION_COOKIE_HTTPS), Err(CookieError));
}

#[test]
fn cookies_are_looked_up_across_headers() {
    let policy = CookiePolicy::new(&url("http://127.0.0.1:3000"));
    let headers = vec![String::from("a=b"), String::from("chat_session=token")];
    assert_eq!(
        cookie_value(&policy, &headers, SESSION_COOKIE_HTTP),
        Ok(Some(String::from("token")))
    );
    let twice = vec![String::from("chat_session=one"), String::from("chat_session=two")];
    assert_eq!(
        cookie_value(&policy, &twice, SESSION_COOKIE_HTTP),
        Ok(Some(String::from("one")))
    );
    let broken = vec![String::from("=value"), String::from("chat_session=token")];
    assert_eq!(cookie_value(&policy, &broken, SESSION_COOKIE_HTTP), Err(CookieError));
    assert_eq!(cookie_value(&policy, &Vec::new(), SESSION_COOKIE_HTTP), Ok(None));
}

#[test]
fn removal_cookies_expire_the_session_name() {
    let policy = CookiePolicy::new(&url("https://chat.example.com"));
    let removal = policy.remove_session_cookie();
    assert_eq!(removal.name(), SESSION_COOKIE_HTTPS);
    assert_eq!(removal.value(), "");
    assert_eq!(removal.max_age(), Some(cookie::time::Duration::ZERO));
}

#[test]
fn tokens_round_trip_and_require_exact_length() {
    let token = SecretToken::from_bytes([7; 32]);
    let encoded = token.encode();
    let parsed = SecretToken::parse(&encoded).expect("encoded token is valid");

    assert!(parsed.matches_hash(&token.hash()));
    assert!(SecretToken::parse("too-short").is_err());
}

#[test]
fn tokens_encode_as_unpadded_url_safe_base64_and_hash_with_sha256() {
    let token = SecretToken::from_bytes([0xff; 32]);
    assert_eq!(token.encode(), "_".repeat(42) + "8");
    let zero = SecretToken::from_bytes([0; 32]);
    assert_eq!(
        zero.hash()[..4],
        [0x66, 0x68, 0x7a, 0xad],
    );
    assert!(!token.matches(&zero));
    assert!(token.matches(&SecretToken::from_bytes([0xff; 32])));
}

#[test]
fn callback_values_are_explicitly_bounded() {
    assert!(OidcCallback {
        code: Some(String::from("code")),
        state: Some(String::from("state")),
        error: None,
    }
    .has_valid_shape());
    assert!(!OidcCallback {
        code: Some("x".repeat(MAX_AUTHORIZATION_CODE_BYTES + 1)),
        state: Some(String::from("state")),
        error: None,
    }
    .has_valid_shape());
    assert!(!OidcCallback {
        code: None,
        state: Some(String::new()),
        error: Some(String::from("access_denied")),
    }
    .has_valid_shape());
}

#[test]
fn authentication_error_categories_have_stable_statuses() {
    assert_eq!(auth_operation_problem(&AuthError::LoginCapacityReached).status(), 503);
    assert_eq!(auth_operation_problem(&AuthError::InvalidStoredData).status(), 500);
}

#[test]
fn forced_session_refreshes_are_rate_limited() {
    assert!(!refresh_due(3, 3, Some(0)));
    assert!(refresh_due(3, 3, Some(60_000)));
    assert!(refresh_due(3, 3, None));
    assert!(!refresh_due(4, 3, None));
}

fn fingerprint(value: u8) -> SessionFingerprint {
    SessionFingerprint::new([value; 32])
}

fn refused(reservation: Result<ConnectionRegistration, CapacityError>) -> CapacityError {
    match reservation {
        Ok(_) => panic!("the reservation must be refused"),
        Err(error) => error,
    }
}

fn expiry() -> SystemTime {
    SystemTime::now() + Duration::from_secs(60)
}

#[test]
fn limits_and_subscription_indexes_are_bounded_and_idempotent() {
    let settings = RealtimeSettings {
        max_connections: 2,
        max_connections_per_user: 1,
        max_subscriptions_per_connection: 1,
        ..RealtimeSettings::default()
    };
    let mut hub = HubState::new(settings);
    let first = hub
        .reserve(UserId::new(1).unwrap(), fingerprint(1), expiry())
        .unwrap();
    assert_eq!(
        refused(hub.reserve(UserId::new(1).unwrap(), fingerprint(2), expiry())),
        CapacityError::UserLimit
    );
    let second = hub
        .reserve(UserId::new(2).unwrap(), fingerprint(2), expiry())
        .unwrap();
    assert_eq!(
        refused(hub.reserve(UserId::new(3).unwrap(), fingerprint(3), expiry())),
        CapacityError::GlobalLimit
    );

    let conversation = ConversationId::new(1).unwrap();
    assert_eq!(
        hub.subscribe(first.connection_id(), conversation),
        SubscribeResult::Added
    );
    assert_eq!(
        hub.subscribe(first.connection_id(), conversation),
        SubscribeResult::AlreadySubscribed
    );
    assert_eq!(
        hub.subscribe(first.connection_id(), ConversationId::new(2).unwrap()),
        SubscribeResult::LimitReached
    );
    assert!(!hub.release_registration(second.connection_id(), second.user_id()));
    assert!(hub.release_registration(first.connection_id(), first.user_id()));
    assert_eq!(hub.registrations(), 0);
}

#[test]
fn unsubscribe_undoes_subscribe_and_released_connections_are_gone() {
    let mut hub = HubState::new(RealtimeSettings::default());
    let registration = hub
        .reserve(UserId::new(1).unwrap(), fingerprint(1), expiry())
        .unwrap();
    let id = registration.connection_id();
    let conversation = ConversationId::new(5).unwrap();
    assert_eq!(hub.subscribe(id, conversation), SubscribeResult::Added);
    assert_eq!(
        unsubscribe_step(&mut hub, id, conversation),
        ControlStep::Respond(ServerMessage::Unsubscribed {
            conversation_id: String::from("5"),
        })
    );
    assert_eq!(hub.subscribe(id, conversation), SubscribeResult::Added);
    assert!(hub.release_registration(id, registration.user_id()));
    assert_eq!(hub.subscribe(id, conversation), SubscribeResult::ConnectionClosed);
    assert_eq!(unsubscribe_step(&mut hub, id, conversation), ControlStep::Disconnected);
}

#[test]
fn shutdown_refuses_new_connections_and_signals_open_ones() {
    let mut hub = HubState::new(RealtimeSettings::default());
    let mut registration = hub
        .reserve(UserId::new(1).unwrap(), fingerprint(1), expiry())
        .unwrap();
    let (_outbound, close) = registration.take_channels().expect("channels are handed out once");
    assert!(registration.take_channels().is_none());
    hub.shutdown();
    assert!(hub.is_shutting_down());
    assert_eq!(
        refused(hub.reserve(UserId::new(2).unwrap(), fingerprint(2), expiry())),
        CapacityError::ShuttingDown
    );
    assert_eq!(*close.borrow(), Some(CloseDirective::server_shutdown()));
}

#[test]
fn session_close_targets_only_the_matching_session() {
    let mut hub = HubState::new(RealtimeSettings::default());
    let mut first = hub
        .reserve(UserId::new(1).unwrap(), fingerprint(1), expiry())
        .expect("first connection can be reserved");
    let mut second = hub
        .reserve(UserId::new(1).unwrap(), fingerprint(2), expiry())
        .expect("second connection can be reserved");
    let (_first_out, first_close) = first.take_channels().unwrap();
    let (_second_out, second_close) = second.take_channels().unwrap();

    hub.close_session(&fingerprint(1), CloseDirective::session_revoked());

    assert_eq!(*first_close.borrow(), Some(CloseDirective::session_revoked()));
    assert!(second_close.has_changed().is_ok_and(|changed| !changed));
}

#[test]
fn publication_targets_subscribers() {
    let mut hub = HubState::new(RealtimeSettings::default());
    let mut subscriber = hub
        .reserve(UserId::new(1).unwrap(), fingerprint(1), expiry())
        .unwrap();
    let mut other = hub
        .reserve(UserId::new(2).unwrap(), fingerprint(2), expiry())
        .unwrap();
    let (mut subscriber_out, _c1) = subscriber.take_channels().unwrap();
    let (mut other_out, _c2) = other.take_channels().unwrap();
    let conversation = ConversationId::new(9).unwrap();
    assert_eq!(
        hub.subscribe(subscriber.connection_id(), conversation),
        SubscribeResult::Added
    );

    hub.publish_to_conversation(conversation, Arc::from("posted"));
    assert_eq!(subscriber_out.try_recv().unwrap().as_ref(), "posted");
    assert!(other_out.try_recv().is_err());

    hub.publish_to_user(UserId::new(2).unwrap(), Arc::from("created"));
    assert_eq!(other_out.try_recv().unwrap().as_ref(), "created");
    assert!(subscriber_out.try_recv().is_err());
}

#[test]
fn close_reasons_fit_control_frame_payloads() {
    for directive in [
        CloseDirective::heartbeat_timeout(),
        CloseDirective::unsupported_data(),
        CloseDirective::policy_violation(),
        CloseDirective::session_revoked(),
        CloseDirective::internal_error(),
        CloseDirective::server_shutdown(),
        CloseDirective::slow_consumer(),
    ] {
        assert!(directive.reason.len() + 2 <= 125);
        assert!(directive.reason.is_ascii());
    }
}

#[test]
fn client_messages_name_positive_conversation_ids() {
    let subscribe = |id: &str| ClientMessage::Subscribe {
        conversation_id: id.to_string(),
    };
    assert_eq!(
        subscribe("42").conversation_id(),
        Ok(ConversationId::new(42).unwrap())
    );
    for invalid in ["0", "-1", "x", "9223372036854775808", ""] {
        assert!(subscribe(invalid).conversation_id().is_err());
    }
    assert_eq!(
        subscribe("+1").conversation_id(),
        Ok(ConversationId::new(1).unwrap())
    );
    assert_eq!(
        plan_client_message(Some(&subscribe("x"))),
        ClientPlan::Respond(ServerMessage::SubscriptionRejected {
            conversation_id: String::from("x"),
            reason: SubscriptionRejection::InvalidRequest,
        })
    );
    assert_eq!(
        plan_client_message(Some(&subscribe("7"))),
        ClientPlan::CheckAccess(ConversationId::new(7).unwrap())
    );
    assert_eq!(
        plan_client_message(None),
        ClientPlan::Stop(CloseDirective::policy_violation())
    );
}

#[test]
fn server_messages_use_string_ids() {
    assert_eq!(
        ServerMessage::message_posted(ConversationId::new(42).unwrap(), MessageId::new(99).unwrap()),
        ServerMessage::MessagePosted {
            conversation_id: String::from("42"),
            message_id: String::from("99"),
        }
    );
}

#[test]
fn posted_messages_notify_their_conversation() {
    let chat = Chat::new(());
    let request = chat
        .post_message_request(
            UserId::new(3).unwrap(),
            &PostMessage::new(ConversationId::new(4).unwrap(), "hi"),
        )
        .unwrap();
    let stored = Message::new(
        MessageId::new(5).unwrap(),
        ConversationId::new(4).unwrap(),
        UserId::new(3).unwrap(),
        MessageBody::try_from("hi").unwrap(),
        SystemTime::UNIX_EPOCH + Duration::from_millis(1500),
    );
    let result = chat.post_message_outcome(&request, Ok(stored)).unwrap();
    let notifications = event_notifications(result.events());
    assert_eq!(notifications.len(), 1);
    assert_eq!(notifications[0].target, NotificationTarget::Conversation(4));
    assert_eq!(
        notifications[0].message,
        ServerMessage::MessagePosted {
            conversation_id: String::from("4"),
            message_id: String::from("5"),
        }
    );
    assert!(matches!(result.events(), [ChatEvent::MessagePosted { .. }]));

    let (location, representation) = created_message(&result).unwrap();
    assert_eq!(location, "/api/v1/conversations/4/messages/5");
    assert_eq!(representation.id, "5");
    assert_eq!(representation.body, "hi");
    assert_eq!(representation.created_at_ms, 1500);
}

#[test]
fn heartbeat_pings_once_and_accepts_only_the_matching_pong() {
    let mut state = ConnectionState::new();
    assert_eq!(state.close_category(), "peer_closed");
    let first = state.step(&ConnectionEvent::HeartbeatTick);
    assert_eq!(first, ConnectionAction::SendPing(be_bytes_of(1)));
    assert!(state.awaiting_pong());
    assert_eq!(state.step(&ConnectionEvent::HeartbeatTick), ConnectionAction::Continue);
    assert_eq!(
        state.step(&ConnectionEvent::PongReceived(vec![9; 8])),
        ConnectionAction::Continue
    );
    assert!(state.awaiting_pong());
    assert_eq!(
        state.step(&ConnectionEvent::PongReceived(be_bytes_of(1).to_vec())),
        ConnectionAction::Continue
    );
    assert!(!state.awaiting_pong());
    assert_eq!(
        state.step(&ConnectionEvent::HeartbeatTick),
        ConnectionAction::SendPing(be_bytes_of(2))
    );
    assert_eq!(
        state.step(&ConnectionEvent::PongTimedOut),
        ConnectionAction::Close(CloseDirective::heartbeat_timeout())
    );
    assert_eq!(state.close_category(), "heartbeat_timeout");
}

#[test]
fn connection_events_choose_close_directives() {
    let mut state = ConnectionState::new();
    assert_eq!(
        state.step(&ConnectionEvent::BinaryReceived),
        ConnectionAction::Close(CloseDirective::unsupported_data())
    );
    let mut state = ConnectionState::new();
    assert_eq!(
        state.step(&ConnectionEvent::SessionExpired),
        ConnectionAction::Close(CloseDirective::session_revoked())
    );
    assert_eq!(state.close_category(), "session_expired");
    let mut state = ConnectionState::new();
    assert_eq!(state.step(&ConnectionEvent::PongTimedOut), ConnectionAction::Continue);
    assert_eq!(state.step(&ConnectionEvent::TextReceived), ConnectionAction::HandleText);
    assert_eq!(state.step(&ConnectionEvent::OutboundMessage), ConnectionAction::Forward);
    assert_eq!(state.step(&ConnectionEvent::CloseSignalLost), ConnectionAction::End);
    assert_eq!(after_answer(SendResult::Sent), ControlOutcome::Continue);
    assert_eq!(
        after_answer(SendResult::SerializationFailed),
        ControlOutcome::Stop(CloseDirective::internal_error())
    );
    assert_eq!(be_bytes_of(0x0102), [0, 0, 0, 0, 0, 0, 1, 2]);
}

#[test]
fn upgrades_need_the_subprotocol_and_a_reservation() {
    assert_eq!(upgrade_refusal(false, false).unwrap().status(), 400);
    assert_eq!(upgrade_refusal(true, true).unwrap().status(), 503);
    assert!(upgrade_refusal(true, false).is_none());
}

#[test]
fn no_arguments_select_server_mode() {
    assert_eq!(parse_command(&Vec::new()), Ok(Command::Serve));
}

fn args(values: &[&str]) -> Vec<String> {
    values.iter().map(|value| value.to_string()).collect()
}

#[test]
fn create_command_requires_a_bounded_positive_lifetime() {
    assert_eq!(
        parse_command(&args(&["admission-code", "create", "--valid-for-hours", "24"])),
        Ok(Command::CreateAdmissionCode { valid_for_hours: 24 })
    );
    for value in ["0", "8761", "one-day"] {
        assert!(parse_command(&args(&["admission-code", "create", "--valid-for-hours", value])).is_err());
    }
}

#[test]
fn unknown_or_incomplete_commands_are_rejected() {
    assert_eq!(parse_command(&args(&["admission-code"])), Err(CommandError));
    assert_eq!(parse_command(&args(&["serve"])), Err(CommandError));
}

#[test]
fn admission_code_lifetimes_are_bounded() {
    assert_eq!(admission_code_lifetime_ms(24).unwrap(), 24 * 3_600_000);
    assert!(matches!(
        admission_code_lifetime_ms(0),
        Err(CreateAdmissionCodeError::InvalidLifetime)
    ));
    assert!(matches!(
        admission_code_lifetime_ms(MAX_ADMISSION_CODE_LIFETIME_HOURS + 1),
        Err(CreateAdmissionCodeError::InvalidLifetime)
    ));
    assert_eq!(
        CommandError.message(),
        "usage: chat-server [admission-code create --valid-for-hours <1-8760>]"
    );
}

#[test]
fn public_url_must_be_a_secure_origin_or_loopback() {
    for value in [
        "http://chat.example.com",
        "https://chat.example.com/path",
        "https://user@chat.example.com",
        "ftp://chat.example.com",
    ] {
        let error = parse_public_url(Some(value.to_string()))
            .expect_err("invalid public URL must be rejected");
        assert!(matches!(error, SettingError::UnsupportedPublicUrl(_)));
    }

    for value in ["http://localhost:3000", "http://[::1]:3000"] {
        assert!(parse_public_url(Some(value.to_string())).is_ok());
    }
    assert!(matches!(
        parse_public_url(Some(String::from("not a url"))),
        Err(SettingError::InvalidPublicUrl { .. })
    ));
}

#[test]
fn default_public_url_is_the_loopback_origin() {
    let parts = parse_public_url(None).expect("defaults are valid");
    assert_eq!(parts.scheme, "http");
    assert_eq!(parts.path, "/");
    assert!(is_loopback_host(&parts.host));
    assert_eq!(validate_web_origin(&parts), Ok(()));
}

#[test]
fn oidc_issuer_preserves_the_exact_validated_identifier() {
    for issuer in [
        "https://accounts.google.com",
        "https://accounts.google.com/",
        "https://accounts.example.com/tenant",
    ] {
        let config = parse_oidc(Some(issuer.to_string()), Some(String::from("client")), None)
            .expect("issuer is valid")
            .expect("OIDC is configured");
        assert_eq!(config.issuer(), issuer);
        assert_eq!(config.client_id(), "client");
        assert_eq!(config.client_secret(), None);
    }
}

#[test]
fn partial_or_empty_oidc_configuration_is_rejected() {
    let partial = parse_oidc(Some(String::from("https://accounts.example.com")), None, None);
    assert!(matches!(partial, Err(SettingError::IncompleteOidcConfiguration)));

    let empty_secret = parse_oidc(
        Some(String::from("https://accounts.example.com")),
        Some(String::from("client")),
        Some(String::new()),
    );
    assert!(matches!(
        empty_secret,
        Err(SettingError::EmptyOidcValue {
            variable: OIDC_CLIENT_SECRET_ENV
        })
    ));
    assert!(matches!(parse_oidc(None, None, None), Ok(None)));
    assert!(matches!(
        parse_oidc(
            Some(String::from("http://accounts.example.com")),
            Some(String::from("client")),
            None
        ),
        Err(SettingError::UnsupportedOidcIssuer)
    ));
}

#[test]
fn admission_mode_is_strict() {
    for value in ["", "closed", "OPEN", "invite-only"] {
        let error = parse_admission_mode(Some(value))
            .expect_err("unsupported admission mode must be rejected");
        assert!(matches!(error, SettingError::InvalidAdmissionMode(_)));
    }
    assert_eq!(parse_admission_mode(None).unwrap(), AdmissionMode::InviteOnly);
    assert_eq!(parse_admission_mode(Some("open")).unwrap(), AdmissionMode::Open);
    assert_eq!(parse_admission_mode(Some("invite_only")).unwrap(), AdmissionMode::InviteOnly);
}

#[test]
fn origins_must_match_exactly() {
    assert!(same_origin(Some("https://chat.example.com"), "https://chat.example.com"));
    assert!(!same_origin(Some("https://attacker.example"), "https://chat.example.com"));
    assert!(!same_origin(Some("https://chat.example.com/"), "https://chat.example.com"));
    assert!(!same_origin(None, "https://chat.example.com"));
}

#[test]
fn invite_only_servers_admit_only_with_a_valid_code() {
    assert_eq!(admission_step(AdmissionMode::Open, false), AdmissionStep::Provision);
    assert_eq!(admission_step(AdmissionMode::InviteOnly, true), AdmissionStep::Provision);
    assert_eq!(admission_step(AdmissionMode::InviteOnly, false), AdmissionStep::Deny);
}

#[test]
fn mutations_need_the_origin_and_the_csrf_token() {
    let user = chat::User::new(
        UserId::new(1).unwrap(),
        chat::DisplayName::try_from("Alice").unwrap(),
        SystemTime::UNIX_EPOCH,
    );
    let csrf = SecretToken::from_bytes([3; 32]);
    let encoded = csrf.encode();
    let session = chat::auth::AuthenticatedSession::new(user, csrf);
    assert!(mutation_check(&session, true, Some(&encoded)).is_ok());
    assert_eq!(
        mutation_check(&session, false, Some(&encoded)).unwrap_err().status(),
        403
    );
    assert_eq!(mutation_check(&session, true, None).unwrap_err().status(), 403);
    assert_eq!(
        mutation_check(&session, true, Some("invalid-token")).unwrap_err().status(),
        403
    );
    assert!(session.verifies_csrf(&encoded));
}

#[test]
fn store_insert_failures_are_classified() {
    assert_eq!(chat::member_insert_outcome(Ok(())), Ok(()));
    assert_eq!(
        chat::member_insert_outcome(Err(sqlx::Error::RowNotFound)),
        Err(chat::AddMemberError::StoreUnavailable)
    );
    assert!(matches!(
        chat::login::session_insert_of(Ok(())),
        chat::login::SessionInsert::Stored
    ));
    assert!(matches!(
        chat::login::session_insert_of(Err(sqlx::Error::PoolClosed)),
        chat::login::SessionInsert::Failed(_)
    ));
}

#[test]
fn stored_auth_users_with_a_read_creation_time_are_built() {
    let at = std::time::UNIX_EPOCH;
    let user = chat::login::auth_user_at(3, " Ada ", Some(at)).expect("the values are valid");

    assert_eq!(user.id().get(), 3);
    assert_eq!(user.display_name().as_str(), "Ada");
    assert!(matches!(
        chat::login::auth_user_at(3, "Ada", None),
        Err(chat::auth::AuthError::InvalidStoredData)
    ));
    assert!(matches!(
        chat::login::session_at(3, "Ada", Some(at), vec![0u8; 31]),
        Err(chat::auth::AuthError::InvalidToken(_))
    ));
    assert!(chat::login::session_at(3, "Ada", Some(at), vec![7u8; 32]).is_ok());
}

#[test]
fn removal_cookies_keep_the_attributes_of_the_cookie_they_remove() {
    let policy = CookiePolicy::new(&url("https://chat.example.com"));
    for removal in [policy.remove_session_cookie(), policy.remove_login_cookie()] {
        assert_eq!(removal.path(), Some("/"));
        assert_eq!(removal.secure(), Some(true));
        assert_eq!(removal.http_only(), Some(true));
        assert_eq!(removal.same_site(), Some(cookie::SameSite::Lax));
    }
    let login = CookiePolicy::new(&url("http://127.0.0.1:8080")).remove_login_cookie();
    assert_eq!(login.secure(), Some(false));
    assert_eq!(login.name(), "chat_login");
}
