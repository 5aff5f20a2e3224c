use vstd::prelude::*;

use crate::decimal::{i64_decimal, parse_i64};
use crate::event::{ChatEvent, ChatEventView};
use crate::id::{ConversationId, MessageId};
use crate::problem::positive_id_in;

verus! {

/// The WebSocket subprotocol spoken by realtime clients.
pub const SUBPROTOCOL: &'static str = "chat.v1";

/// Limits and timings of the realtime service. Durations are in
/// milliseconds.
#[derive(Clone, Copy, Debug, PartialEq, Eq, Structural)]
pub struct RealtimeSettings {
    pub max_connections: usize,
    pub max_connections_per_user: usize,
    pub max_subscriptions_per_connection: usize,
    pub outbound_queue_capacity: usize,
    pub max_message_size: usize,
    pub max_frame_size: usize,
    pub read_buffer_size: usize,
    pub write_buffer_size: usize,
    pub max_write_buffer_size: usize,
    pub heartbeat_interval_ms: u64,
    pub heartbeat_timeout_ms: u64,
    pub close_handshake_timeout_ms: u64,
    pub server_drain_timeout_ms: u64,
}

impl Default for RealtimeSettings {
    fn default() -> (r: Self)
        ensures
            r.max_connections == 1024,
            r.max_connections_per_user == 8,
            r.max_subscriptions_per_connection == 128,
            r.outbound_queue_capacity == 64,
            r.max_message_size == 4 * 1024,
            r.max_frame_size == 4 * 1024,
            r.read_buffer_size == 16 * 1024,
            r.write_buffer_size == 16 * 1024,
            r.max_write_buffer_size == 64 * 1024,
            r.heartbeat_interval_ms == 30_000,
            r.heartbeat_timeout_ms == 90_000,
            r.close_handshake_timeout_ms == 2_000,
            r.server_drain_timeout_ms == 10_000,
    {
        RealtimeSettings {
            max_connections: 1024,
            max_connections_per_user: 8,
            max_subscriptions_per_connection: 128,
            outbound_queue_capacity: 64,
            max_message_size: 4 * 1024,
            max_frame_size: 4 * 1024,
            read_buffer_size: 16 * 1024,
            write_buffer_size: 16 * 1024,
            max_write_buffer_size: 64 * 1024,
            heartbeat_interval_ms: 30_000,
            heartbeat_timeout_ms: 90_000,
            close_handshake_timeout_ms: 2_000,
            server_drain_timeout_ms: 10_000,
        }
    }
}

/// How a realtime connection is to be closed: the WebSocket close code, the
/// reason sent to the peer and the category recorded in logs.
#[derive(Clone, Copy, Debug, PartialEq, Eq)]
pub struct CloseDirective {
    pub code: u16,
    pub reason: &'static str,
    pub category: &'static str,
}

/// A close reason travels in a control frame together with the two-byte
/// close code, and control frames carry at most 125 bytes: the reason is
/// ASCII and at most 123 characters long.
pub open spec fn fits_control_frame(reason: Seq<char>) -> bool {
    &&& vstd::utf8::is_ascii_chars(reason)
    &&& reason.len() + 2 <= 125
}

impl CloseDirective {
    /// The directive that [`CloseDirective::heartbeat_timeout`] returns.
    pub open spec fn heartbeat_timeout_spec() -> Self {
        CloseDirective { code: 1001, reason: "heartbeat timeout", category: "heartbeat_timeout" }
    }

    /// The directive that [`CloseDirective::unsupported_data`] returns.
    pub open spec fn unsupported_data_spec() -> Self {
        CloseDirective { code: 1003, reason: "unsupported data", category: "unsupported_data" }
    }

    /// The directive that [`CloseDirective::policy_violation`] returns.
    pub open spec fn policy_violation_spec() -> Self {
        CloseDirective { code: 1008, reason: "protocol violation", category: "protocol_violation" }
    }

    /// The directive that [`CloseDirective::session_revoked`] returns.
    pub open spec fn session_revoked_spec() -> Self {
        CloseDirective { code: 1008, reason: "session ended", category: "session_ended" }
    }

    /// The directive that [`CloseDirective::internal_error`] returns.
    pub open spec fn internal_error_spec() -> Self {
        CloseDirective { code: 1011, reason: "internal error", category: "internal_error" }
    }

    /// The directive that [`CloseDirective::server_shutdown`] returns.
    pub open spec fn server_shutdown_spec() -> Self {
        CloseDirective { code: 1012, reason: "server shutdown", category: "server_shutdown" }
    }

    /// The directive that [`CloseDirective::slow_consumer`] returns.
    pub open spec fn slow_consumer_spec() -> Self {
        CloseDirective { code: 1013, reason: "resync required", category: "slow_consumer" }
    }

    /// The peer stopped answering pings.
    pub fn heartbeat_timeout() -> (r: Self)
        ensures
            r == Self::heartbeat_timeout_spec(),
            r.code == 1001,
            r.reason@ == "heartbeat timeout"@,
            r.category@ == "heartbeat_timeout"@,
            fits_control_frame(r.reason@),
    {
        proof {
            reveal_strlit("heartbeat timeout");
        }
        CloseDirective { code: 1001, reason: "heartbeat timeout", category: "heartbeat_timeout" }
    }

    /// The peer sent a binary frame.
    pub fn unsupported_data() -> (r: Self)
        ensures
            r == Self::unsupported_data_spec(),
            r.code == 1003,
            r.reason@ == "unsupported data"@,
            r.category@ == "unsupported_data"@,
            fits_control_frame(r.reason@),
    {
        proof {
            reveal_strlit("unsupported data");
        }
        CloseDirective { code: 1003, reason: "unsupported data", category: "unsupported_data" }
    }

    /// The peer broke the realtime protocol.
    pub fn policy_violation() -> (r: Self)
        ensures
            r == Self::policy_violation_spec(),
            r.code == 1008,
            r.reason@ == "protocol violation"@,
            r.category@ == "protocol_violation"@,
            fits_control_frame(r.reason@),
    {
        proof {
            reveal_strlit("protocol violation");
        }
        CloseDirective { code: 1008, reason: "protocol violation", category: "protocol_violation" }
    }

    /// The session behind the connection ended.
    pub fn session_revoked() -> (r: Self)
        ensures
            r == Self::session_revoked_spec(),
            r.code == 1008,
            r.reason@ == "session ended"@,
            r.category@ == "session_ended"@,
            fits_control_frame(r.reason@),
    {
        proof {
            reveal_strlit("session ended");
        }
        CloseDirective { code: 1008, reason: "session ended", category: "session_ended" }
    }

    /// The server failed while serving the connection.
    pub fn internal_error() -> (r: Self)
        ensures
            r == Self::internal_error_spec(),
            r.code == 1011,
            r.reason@ == "internal error"@,
            r.category@ == "internal_error"@,
            fits_control_frame(r.reason@),
    {
        proof {
            reveal_strlit("internal error");
        }
        CloseDirective { code: 1011, reason: "internal error", category: "internal_error" }
    }

    /// The server is shutting down.
    pub fn server_shutdown() -> (r: Self)
        ensures
            r == Self::server_shutdown_spec(),
            r.code == 1012,
            r.reason@ == "server shutdown"@,
            r.category@ == "server_shutdown"@,
            fits_control_frame(r.reason@),
    {
        proof {
            reveal_strlit("server shutdown");
        }
        CloseDirective { code: 1012, reason: "server shutdown", category: "server_shutdown" }
    }

    /// The peer does not keep up with its notifications.
    pub fn slow_consumer() -> (r: Self)
        ensures
            r == Self::slow_consumer_spec(),
            r.code == 1013,
            r.reason@ == "resync required"@,
            r.category@ == "slow_consumer"@,
            fits_control_frame(r.reason@),
    {
        proof {
            reveal_strlit("resync required");
        }
        CloseDirective { code: 1013, reason: "resync required", category: "slow_consumer" }
    }
}

/// A request sent by a realtime client.
#[derive(Clone, Debug, PartialEq, Eq)]
pub enum ClientMessage {
    Subscribe { conversation_id: String },
    Unsubscribe { conversation_id: String },
}

impl ClientMessage {
    /// The conversation ID exactly as the client wrote it.
    pub open spec fn raw_id(&self) -> Seq<char> {
        match self {
            ClientMessage::Subscribe { conversation_id } => conversation_id@,
            ClientMessage::Unsubscribe { conversation_id } => conversation_id@,
        }
    }

    /// Returns the conversation ID exactly as the client wrote it.
    pub fn raw_conversation_id(&self) -> (r: &str)
        ensures
            r@ == self.raw_id(),
    {
        match self {
            ClientMessage::Subscribe { conversation_id } => conversation_id.as_str(),
            ClientMessage::Unsubscribe { conversation_id } => conversation_id.as_str(),
        }
    }

    /// Reads the requested conversation: a positive decimal `i64`.
    pub fn conversation_id(&self) -> (r: Result<ConversationId, InvalidConversationId>)
        ensures
            r is Ok <==> positive_id_in(self.raw_id()) is Some,
            r matches Ok(id) ==> positive_id_in(self.raw_id()) == Some(id@),
    {
        match parse_i64(self.raw_conversation_id()) {
            Some(v) => match ConversationId::new(v) {
                Ok(id) => Ok(id),
                Err(_) => Err(InvalidConversationId),
            },
            None => Err(InvalidConversationId),
        }
    }
}

/// The error returned for a conversation ID that is not a positive decimal
/// `i64`.
#[derive(Clone, Copy, Debug, PartialEq, Eq, Structural)]
pub struct InvalidConversationId;

/// Why a subscription request was refused.
#[derive(Clone, Copy, Debug, PartialEq, Eq, Structural)]
pub enum SubscriptionRejection {
    InvalidRequest,
    NotFound,
    LimitReached,
    TemporarilyUnavailable,
}

/// A message sent to a realtime client. IDs travel as decimal strings.
#[derive(Clone, Debug, PartialEq, Eq)]
pub enum ServerMessage {
    Ready,
    Subscribed { conversation_id: String },
    Unsubscribed { conversation_id: String },
    SubscriptionRejected { conversation_id: String, reason: SubscriptionRejection },
    ConversationCreated { conversation_id: String },
    MessagePosted { conversation_id: String, message_id: String },
}

/// A server message as contracts speak of it.
pub enum ServerMessageView {
    Ready,
    Subscribed(Seq<char>),
    Unsubscribed(Seq<char>),
    SubscriptionRejected(Seq<char>, SubscriptionRejection),
    ConversationCreated(Seq<char>),
    MessagePosted(Seq<char>, Seq<char>),
}

impl View for ServerMessage {
    type V = ServerMessageView;

    open spec fn view(&self) -> ServerMessageView {
        match self {
            ServerMessage::Ready => ServerMessageView::Ready,
            ServerMessage::Subscribed { conversation_id } => ServerMessageView::Subscribed(
                conversation_id@,
            ),
            ServerMessage::Unsubscribed { conversation_id } => ServerMessageView::Unsubscribed(
                conversation_id@,
            ),
            ServerMessage::SubscriptionRejected { conversation_id, reason } =>
                ServerMessageView::SubscriptionRejected(conversation_id@, *reason),
            ServerMessage::ConversationCreated { conversation_id } =>
                ServerMessageView::ConversationCreated(conversation_id@),
            ServerMessage::MessagePosted { conversation_id, message_id } =>
                ServerMessageView::MessagePosted(conversation_id@, message_id@),
        }
    }
}

impl ServerMessage {
    /// Confirms a subscription.
    pub fn subscribed(conversation_id: ConversationId) -> (r: Self)
        ensures
            r@ == ServerMessageView::Subscribed(i64_decimal(conversation_id@)),
    {
        ServerMessage::Subscribed { conversation_id: conversation_id.to_string() }
    }

    /// Confirms an unsubscription.
    pub fn unsubscribed(conversation_id: ConversationId) -> (r: Self)
        ensures
            r@ == ServerMessageView::Unsubscribed(i64_decimal(conversation_id@)),
    {
        ServerMessage::Unsubscribed { conversation_id: conversation_id.to_string() }
    }

    /// Refuses a subscription request for the conversation written as
    /// `conversation_id`.
    pub fn subscription_rejected(conversation_id: &str, reason: SubscriptionRejection) -> (r: Self)
        ensures
            r@ == ServerMessageView::SubscriptionRejected(conversation_id@, reason),
    {
        ServerMessage::SubscriptionRejected { conversation_id: conversation_id.to_owned(), reason }
    }

    /// Announces a conversation that the recipient created.
    pub fn conversation_created(conversation_id: ConversationId) -> (r: Self)
        ensures
            r@ == ServerMessageView::ConversationCreated(i64_decimal(conversation_id@)),
    {
        ServerMessage::ConversationCreated { conversation_id: conversation_id.to_string() }
    }

    /// Announces a message posted to a subscribed conversation.
    pub fn message_posted(conversation_id: ConversationId, message_id: MessageId) -> (r: Self)
        ensures
            r@ == ServerMessageView::MessagePosted(
                i64_decimal(conversation_id@),
                i64_decimal(message_id@),
            ),
    {
        ServerMessage::MessagePosted {
            conversation_id: conversation_id.to_string(),
            message_id: message_id.to_string(),
        }
    }
}

/// Who receives a notification: every connection of a user, or every
/// connection subscribed to a conversation.
#[derive(Clone, Copy, Debug, PartialEq, Eq, Structural)]
pub enum NotificationTarget {
    User(i64),
    Conversation(i64),
}

/// A server message and the connections it goes to.
#[derive(Clone, Debug, PartialEq, Eq)]
pub struct Notification {
    pub target: NotificationTarget,
    pub message: ServerMessage,
}

/// The notification an event produces, if any: a created conversation is
/// announced to its creator, a posted message to the conversation's
/// subscribers; other events are not pushed.
pub open spec fn notification_for(event: ChatEventView) -> Option<(NotificationTarget, ServerMessageView)> {
    match event {
        ChatEventView::ConversationCreated(conversation, membership) => Some(
            (
                NotificationTarget::User(membership.user_id),
                ServerMessageView::ConversationCreated(i64_decimal(conversation.id)),
            ),
        ),
        ChatEventView::MessagePosted(message) => Some(
            (
                NotificationTarget::Conversation(message.conversation_id),
                ServerMessageView::MessagePosted(
                    i64_decimal(message.conversation_id),
                    i64_decimal(message.id),
                ),
            ),
        ),
        _ => None,
    }
}

/// The notifications of a list of events, in order.
pub open spec fn notifications_for(events: Seq<ChatEventView>) -> Seq<(NotificationTarget, ServerMessageView)>
    decreases events.len(),
{
    if events.len() == 0 {
        Seq::empty()
    } else {
        let rest = notifications_for(events.drop_last());
        match notification_for(events.last()) {
            Some(n) => rest.push(n),
            None => rest,
        }
    }
}

/// Each event adds to the notifications of the events before it: a created
/// conversation adds exactly one notification, to its creator's user, naming
/// the conversation by its decimal ID; a posted message adds exactly one, to
/// the message's conversation, naming the conversation and the message by
/// their decimal IDs; any other event adds none.
pub proof fn lemma_notifications_follow_events(events: Seq<ChatEventView>, event: ChatEventView)
    ensures
        notifications_for(events.push(event)).take(notifications_for(events).len() as int)
            == notifications_for(events),
        match event {
            ChatEventView::ConversationCreated(conversation, membership) => {
                let ns = notifications_for(events.push(event));
                &&& ns.len() == notifications_for(events).len() + 1
                &&& ns.last().0 == NotificationTarget::User(membership.user_id)
                &&& ns.last().1 matches ServerMessageView::ConversationCreated(id)
                    && crate::decimal::i64_from_decimal(id) == Some(conversation.id)
            },
            ChatEventView::MessagePosted(message) => {
                let ns = notifications_for(events.push(event));
                &&& ns.len() == notifications_for(events).len() + 1
                &&& ns.last().0 == NotificationTarget::Conversation(message.conversation_id)
                &&& ns.last().1 matches ServerMessageView::MessagePosted(c, m)
                    && crate::decimal::i64_from_decimal(c) == Some(message.conversation_id)
                    && crate::decimal::i64_from_decimal(m) == Some(message.id)
            },
            _ => notifications_for(events.push(event)) == notifications_for(events),
        },
{
    let all = events.push(event);
    assert(all.drop_last() =~= events);
    assert(all.last() == event);
    match event {
        ChatEventView::ConversationCreated(conversation, _) => {
            crate::decimal::lemma_i64_decimal_round_trip(conversation.id);
        },
        ChatEventView::MessagePosted(message) => {
            crate::decimal::lemma_i64_decimal_round_trip(message.conversation_id);
            crate::decimal::lemma_i64_decimal_round_trip(message.id);
        },
        _ => {},
    }
    assert(notifications_for(all).take(notifications_for(events).len() as int)
        =~= notifications_for(events));
}

/// The view of a notification list.
pub open spec fn notifications_view(ns: Seq<Notification>) -> Seq<(NotificationTarget, ServerMessageView)> {
    ns.map_values(|n: Notification| (n.target, n.message@))
}

/// The realtime notifications that `events` produce, in event order.
pub fn event_notifications(events: &[ChatEvent]) -> (r: Vec<Notification>)
    ensures
        notifications_view(r@) == notifications_for(events@.map_values(|e: ChatEvent| e@)),
{
    let mut r: Vec<Notification> = Vec::new();
    let ghost views = events@.map_values(|e: ChatEvent| e@);
    let mut i: usize = 0;
    while i < events.len()
        invariant
            i <= events@.len(),
            views == events@.map_values(|e: ChatEvent| e@),
            notifications_view(r@) == notifications_for(views.take(i as int)),
        decreases events.len() - i,
    {
        let ghost before = r@;
        assert(views.take(i + 1).drop_last() =~= views.take(i as int));
        match &events[i] {
            ChatEvent::ConversationCreated { conversation, creator_membership } => {
                let message = ServerMessage::conversation_created(conversation.id());
                r.push(
                    Notification {
                        target: NotificationTarget::User(creator_membership.user_id().get()),
                        message,
                    },
                );
                assert(notifications_view(r@) =~= notifications_view(before).push(
                    notification_for(views[i as int]).unwrap(),
                ));
            },
            ChatEvent::MessagePosted { message } => {
                let notification = ServerMessage::message_posted(
                    message.conversation_id(),
                    message.id(),
                );
                r.push(
                    Notification {
                        target: NotificationTarget::Conversation(message.conversation_id().get()),
                        message: notification,
                    },
                );
                assert(notifications_view(r@) =~= notifications_view(before).push(
                    notification_for(views[i as int]).unwrap(),
                ));
            },
            _ => {},
        }
        i = i + 1;
    }
    assert(views.take(events@.len() as int) =~= views);
    r
}

} // verus!
