use vstd::prelude::*;

use crate::decimal::i64_decimal;
use crate::get_conversation::{ConversationDetails, GetConversationError};
use crate::hub::{
    without_subscription, with_subscription, ConnectionId, HubState, HubView, SubscribeResult,
};
use crate::id::ConversationId;
use crate::auth::AuthError;
use crate::login::auth_operation_problem;
use crate::problem::{
    internal_problem, invalid_request_problem, positive_id_in, unauthenticated_problem,
    unavailable_problem, Problem,
};
use crate::realtime::{
    ClientMessage, CloseDirective, ServerMessage, ServerMessageView, SubscriptionRejection,
};

verus! {

/// What a connection task does after handling one client message.
#[derive(Clone, Copy, Debug, PartialEq, Eq)]
pub enum ControlOutcome {
    /// Keep serving the connection.
    Continue,
    /// Close the connection with this directive.
    Stop(CloseDirective),
    /// The socket can no longer be written.
    Disconnected,
}

/// The first decision on a client message.
#[derive(Clone, Debug, PartialEq, Eq)]
pub enum ClientPlan {
    /// The text was not a valid protocol message: close the connection.
    Stop(CloseDirective),
    /// Answer with this message.
    Respond(ServerMessage),
    /// Check that the user may read the conversation, then subscribe.
    CheckAccess(ConversationId),
    /// Drop the subscription to the conversation.
    Unsubscribe(ConversationId),
}

/// The decision after a subscription or unsubscription was acted on.
#[derive(Clone, Debug, PartialEq, Eq)]
pub enum ControlStep {
    /// Answer with this message.
    Respond(ServerMessage),
    /// Close the connection with this directive.
    Stop(CloseDirective),
    /// The connection is no longer registered.
    Disconnected,
}

/// How sending an answer went.
#[derive(Clone, Copy, Debug, PartialEq, Eq, Structural)]
pub enum SendResult {
    Sent,
    SerializationFailed,
    SocketFailed,
}

/// Decides what to do with a client message: text that did not decode as a
/// protocol message closes the connection as a protocol violation; a
/// conversation ID that is not a positive decimal `i64` is answered with an
/// invalid-request rejection that repeats the ID as written; otherwise a
/// subscription needs an access check and an unsubscription goes ahead.
pub fn plan_client_message(decoded: Option<&ClientMessage>) -> (r: ClientPlan)
    ensures
        decoded is None ==> r == ClientPlan::Stop(CloseDirective::policy_violation_spec()),
        decoded matches Some(m) ==> match positive_id_in(m.raw_id()) {
            None => r matches ClientPlan::Respond(answer) && answer@
                == ServerMessageView::SubscriptionRejected(
                m.raw_id(),
                SubscriptionRejection::InvalidRequest,
            ),
            Some(id) => match m {
                ClientMessage::Subscribe { .. } => r matches ClientPlan::CheckAccess(c) && c@ == id,
                ClientMessage::Unsubscribe { .. } => r matches ClientPlan::Unsubscribe(c) && c@
                    == id,
            },
        },
{
    match decoded {
        None => ClientPlan::Stop(CloseDirective::policy_violation()),
        Some(message) => match message.conversation_id() {
            Err(_) => ClientPlan::Respond(
                ServerMessage::subscription_rejected(
                    message.raw_conversation_id(),
                    SubscriptionRejection::InvalidRequest,
                ),
            ),
            Ok(id) => match message {
                ClientMessage::Subscribe { .. } => ClientPlan::CheckAccess(id),
                ClientMessage::Unsubscribe { .. } => ClientPlan::Unsubscribe(id),
            },
        },
    }
}

/// Subscribes after the access check answered `access`: a visible
/// conversation is subscribed (an existing subscription counts as success)
/// unless the connection is at its limit or gone; an unknown conversation or
/// an unavailable store is answered with a rejection; an inconsistent store
/// answer closes the connection with an internal error.
pub fn subscribe_step(
    hub: &mut HubState,
    connection_id: ConnectionId,
    conversation_id: ConversationId,
    access: &Result<ConversationDetails, GetConversationError>,
) -> (r: ControlStep)
    requires
        old(hub).wf(),
    ensures
        final(hub).wf(),
        ({
            let v = old(hub)@;
            let c = connection_id@;
            let k = conversation_id@;
            let id = i64_decimal(k);
            match access {
                Ok(_) => if !v.connections.contains_key(c) {
                    r == ControlStep::Disconnected && final(hub)@ == v
                } else if v.connections[c].subscriptions.contains(k) {
                    r matches ControlStep::Respond(m) && m@ == ServerMessageView::Subscribed(id)
                        && final(hub)@ == v
                } else if v.connections[c].subscriptions.len()
                    >= v.settings.max_subscriptions_per_connection {
                    r matches ControlStep::Respond(m) && m@
                        == ServerMessageView::SubscriptionRejected(
                        id,
                        SubscriptionRejection::LimitReached,
                    ) && final(hub)@ == v
                } else {
                    r matches ControlStep::Respond(m) && m@ == ServerMessageView::Subscribed(id)
                        && final(hub)@ == with_subscription(v, c, k)
                },
                Err(GetConversationError::NotFound) => r matches ControlStep::Respond(m) && m@
                    == ServerMessageView::SubscriptionRejected(id, SubscriptionRejection::NotFound)
                    && final(hub)@ == v,
                Err(GetConversationError::StoreUnavailable) => r matches ControlStep::Respond(m)
                    && m@ == ServerMessageView::SubscriptionRejected(
                    id,
                    SubscriptionRejection::TemporarilyUnavailable,
                ) && final(hub)@ == v,
                Err(GetConversationError::InvalidStoreResult) => r == ControlStep::Stop(
                    CloseDirective::internal_error_spec(),
                ) && final(hub)@ == v,
            }
        }),
{
    match access {
        Ok(_) => match hub.subscribe(connection_id, conversation_id) {
            SubscribeResult::Added | SubscribeResult::AlreadySubscribed => ControlStep::Respond(
                ServerMessage::subscribed(conversation_id),
            ),
            SubscribeResult::LimitReached => ControlStep::Respond(
                ServerMessage::subscription_rejected(
                    conversation_id.to_string().as_str(),
                    SubscriptionRejection::LimitReached,
                ),
            ),
            SubscribeResult::ConnectionClosed => ControlStep::Disconnected,
        },
        Err(GetConversationError::NotFound) => ControlStep::Respond(
            ServerMessage::subscription_rejected(
                conversation_id.to_string().as_str(),
                SubscriptionRejection::NotFound,
            ),
        ),
        Err(GetConversationError::StoreUnavailable) => ControlStep::Respond(
            ServerMessage::subscription_rejected(
                conversation_id.to_string().as_str(),
                SubscriptionRejection::TemporarilyUnavailable,
            ),
        ),
        Err(GetConversationError::InvalidStoreResult) => ControlStep::Stop(
            CloseDirective::internal_error(),
        ),
    }
}

/// Drops a subscription: confirmed while the connection is registered,
/// otherwise the connection is gone.
pub fn unsubscribe_step(hub: &mut HubState, connection_id: ConnectionId, conversation_id: ConversationId) -> (r:
    ControlStep)
    requires
        old(hub).wf(),
    ensures
        final(hub).wf(),
        final(hub)@ == without_subscription(old(hub)@, connection_id@, conversation_id@),
        old(hub)@.connections.contains_key(connection_id@) ==> (r matches ControlStep::Respond(m)
            && m@ == ServerMessageView::Unsubscribed(i64_decimal(conversation_id@))),
        !old(hub)@.connections.contains_key(connection_id@) ==> r == ControlStep::Disconnected,
{
    if hub.unsubscribe(connection_id, conversation_id) {
        ControlStep::Respond(ServerMessage::unsubscribed(conversation_id))
    } else {
        ControlStep::Disconnected
    }
}

/// What sending an answer means for the connection: a serialization failure
/// closes it with an internal error, a socket failure means it is gone.
pub fn after_answer(sent: SendResult) -> (r: ControlOutcome)
    ensures
        sent == SendResult::Sent ==> r == ControlOutcome::Continue,
        sent == SendResult::SerializationFailed ==> r == ControlOutcome::Stop(
            CloseDirective::internal_error_spec(),
        ),
        sent == SendResult::SocketFailed ==> r == ControlOutcome::Disconnected,
{
    match sent {
        SendResult::Sent => ControlOutcome::Continue,
        SendResult::SerializationFailed => ControlOutcome::Stop(CloseDirective::internal_error()),
        SendResult::SocketFailed => ControlOutcome::Disconnected,
    }
}

} // verus!

verus! {

/// The big-endian bytes of `n`.
pub open spec fn be_bytes(n: u64) -> Seq<u8> {
    seq![
        (n / 0x100_0000_0000_0000) as u8,
        ((n / 0x1_0000_0000_0000) % 0x100) as u8,
        ((n / 0x100_0000_0000) % 0x100) as u8,
        ((n / 0x1_0000_0000) % 0x100) as u8,
        ((n / 0x100_0000) % 0x100) as u8,
        ((n / 0x1_0000) % 0x100) as u8,
        ((n / 0x100) % 0x100) as u8,
        (n % 0x100) as u8,
    ]
}

/// The big-endian bytes of `n`, as `u64::to_be_bytes` gives them.
pub fn be_bytes_of(n: u64) -> (r: [u8; 8])
    ensures
        r@ == be_bytes(n),
{
    let r: [u8; 8] = [
        (n >> 56) as u8,
        (n >> 48) as u8,
        (n >> 40) as u8,
        (n >> 32) as u8,
        (n >> 24) as u8,
        (n >> 16) as u8,
        (n >> 8) as u8,
        n as u8,
    ];
    assert((n >> 56) as u8 == (n / 0x100_0000_0000_0000) as u8) by (bit_vector);
    assert((n >> 48) as u8 == ((n / 0x1_0000_0000_0000) % 0x100) as u8) by (bit_vector);
    assert((n >> 40) as u8 == ((n / 0x100_0000_0000) % 0x100) as u8) by (bit_vector);
    assert((n >> 32) as u8 == ((n / 0x1_0000_0000) % 0x100) as u8) by (bit_vector);
    assert((n >> 24) as u8 == ((n / 0x100_0000) % 0x100) as u8) by (bit_vector);
    assert((n >> 16) as u8 == ((n / 0x1_0000) % 0x100) as u8) by (bit_vector);
    assert((n >> 8) as u8 == ((n / 0x100) % 0x100) as u8) by (bit_vector);
    assert(n as u8 == (n % 0x100) as u8) by (bit_vector);
    assert(r@ =~= be_bytes(n));
    r
}

/// What happened to a connection task since its last step.
#[derive(Clone, Debug, PartialEq, Eq)]
pub enum ConnectionEvent {
    /// The hub changed the close signal; `None` means no directive.
    CloseSignal(Option<CloseDirective>),
    /// The hub's side of the close signal is gone.
    CloseSignalLost,
    /// The session behind the connection expired.
    SessionExpired,
    /// The pong for the pending ping did not arrive in time.
    PongTimedOut,
    /// A notification waits in the outbound queue.
    OutboundMessage,
    /// The outbound queue is closed.
    OutboundClosed,
    /// Writing a notification to the socket failed.
    OutboundWriteFailed,
    /// The peer's stream ended.
    PeerFinished,
    /// Reading from the socket failed.
    ReadFailed,
    /// A text frame arrived.
    TextReceived,
    /// The text frame was handled.
    TextHandled(ControlOutcome),
    /// A binary frame arrived.
    BinaryReceived,
    /// A ping arrived.
    PingReceived,
    /// A pong arrived with this payload.
    PongReceived(Vec<u8>),
    /// A close frame arrived.
    CloseReceived,
    /// The heartbeat interval elapsed.
    HeartbeatTick,
    /// Writing a ping failed.
    PingWriteFailed,
}

/// What the connection task must do next.
#[derive(Clone, Debug, PartialEq, Eq)]
pub enum ConnectionAction {
    /// Keep waiting for events.
    Continue,
    /// Write the waiting notification to the socket.
    Forward,
    /// Handle the text frame as a client message.
    HandleText,
    /// Send a ping with this payload and start waiting for its pong.
    SendPing([u8; 8]),
    /// Send a close frame with this directive, then end.
    Close(CloseDirective),
    /// End the connection.
    End,
}

/// The state of a connection task as contracts speak of it.
pub struct ConnectionStateView {
    pub ping_sequence: u64,
    pub pending_ping: Option<Seq<u8>>,
    pub close_category: Seq<char>,
}

/// The heartbeat state of a realtime connection and the category its end
/// will be logged under.
pub struct ConnectionState {
    ping_sequence: u64,
    pending_ping: Option<[u8; 8]>,
    close_category: &'static str,
}

impl View for ConnectionState {
    type V = ConnectionStateView;

    closed spec fn view(&self) -> ConnectionStateView {
        ConnectionStateView {
            ping_sequence: self.ping_sequence,
            pending_ping: match self.pending_ping {
                Some(p) => Some(p@),
                None => None,
            },
            close_category: self.close_category@,
        }
    }
}

/// What a connection does when it opens: a close directive already given
/// closes it at once, otherwise it greets the client with `Ready`.
pub fn opening_action(initial: Option<CloseDirective>) -> (r: ConnectionAction)
    ensures
        initial matches Some(d) ==> r == ConnectionAction::Close(d),
        initial is None ==> r == ConnectionAction::Continue,
{
    match initial {
        Some(d) => ConnectionAction::Close(d),
        None => ConnectionAction::Continue,
    }
}

/// Whether `payload` is the pending ping's payload.
fn answers_ping(pending: &Option<[u8; 8]>, payload: &Vec<u8>) -> (r: bool)
    ensures
        r == (pending matches Some(p) && p@ == payload@),
{
    match pending {
        None => false,
        Some(p) => {
            if payload.len() != 8 {
                return false;
            }
            let mut i: usize = 0;
            while i < 8
                invariant
                    i <= 8,
                    pending matches Some(q) && q@ == p@,
                    p@.len() == 8,
                    payload@.len() == 8,
                    forall|j: int| 0 <= j < i ==> p@[j] == payload@[j],
                decreases 8 - i,
            {
                if p[i] != payload[i] {
                    return false;
                }
                i = i + 1;
            }
            assert(p@ =~= payload@);
            true
        },
    }
}

impl ConnectionState {
    /// A fresh connection: no ping sent, and an end that is logged as the
    /// peer closing unless something else ends it.
    pub fn new() -> (r: Self)
        ensures
            r@.ping_sequence == 0,
            r@.pending_ping is None,
            r@.close_category == "peer_closed"@,
    {
        ConnectionState { ping_sequence: 0, pending_ping: None, close_category: "peer_closed" }
    }

    /// The category the connection's end is logged under.
    pub fn close_category(&self) -> (r: &'static str)
        ensures
            r@ == self@.close_category,
    {
        self.close_category
    }

    /// Whether a ping awaits its pong, so that the pong deadline applies.
    pub fn awaiting_pong(&self) -> (r: bool)
        ensures
            r == self@.pending_ping is Some,
    {
        self.pending_ping.is_some()
    }

    /// Decides what to do about `event`.
    ///
    /// A close directive from the hub, an expired session, a missed pong, a
    /// binary frame and a handled message that must stop the connection all
    /// close it with the matching directive; a lost close signal, a closed
    /// queue, a failed read or write, the peer's end and its close frame end
    /// it. A heartbeat sends the next ping only when none is pending, and a
    /// pong clears the pending ping only when it carries that ping's payload.
    pub fn step(&mut self, event: &ConnectionEvent) -> (r: ConnectionAction)
        ensures
            ({
                let s = old(self)@;
                let t = final(self)@;
                match event {
                    ConnectionEvent::CloseSignal(None) => r == ConnectionAction::Continue && t == s,
                    ConnectionEvent::CloseSignal(Some(d)) => r == ConnectionAction::Close(*d) && t
                        == ConnectionStateView { close_category: d.category@, ..s },
                    ConnectionEvent::CloseSignalLost => r == ConnectionAction::End && t
                        == ConnectionStateView { close_category: "hub_closed"@, ..s },
                    ConnectionEvent::SessionExpired => r == ConnectionAction::Close(
                        CloseDirective::session_revoked_spec(),
                    ) && t == ConnectionStateView { close_category: "session_expired"@, ..s },
                    ConnectionEvent::PongTimedOut => if s.pending_ping is Some {
                        r == ConnectionAction::Close(CloseDirective::heartbeat_timeout_spec()) && t
                            == ConnectionStateView {
                            close_category: CloseDirective::heartbeat_timeout_spec().category@,
                            ..s
                        }
                    } else {
                        r == ConnectionAction::Continue && t == s
                    },
                    ConnectionEvent::OutboundMessage => r == ConnectionAction::Forward && t == s,
                    ConnectionEvent::OutboundClosed => r == ConnectionAction::End && t
                        == ConnectionStateView { close_category: "outbound_closed"@, ..s },
                    ConnectionEvent::OutboundWriteFailed => r == ConnectionAction::End && t
                        == ConnectionStateView { close_category: "write_failed"@, ..s },
                    ConnectionEvent::PeerFinished => r == ConnectionAction::End && t == s,
                    ConnectionEvent::ReadFailed => r == ConnectionAction::End && t
                        == ConnectionStateView { close_category: "read_failed"@, ..s },
                    ConnectionEvent::TextReceived => r == ConnectionAction::HandleText && t == s,
                    ConnectionEvent::TextHandled(ControlOutcome::Continue) => r
                        == ConnectionAction::Continue && t == s,
                    ConnectionEvent::TextHandled(ControlOutcome::Stop(d)) => r
                        == ConnectionAction::Close(*d) && t == ConnectionStateView {
                        close_category: d.category@,
                        ..s
                    },
                    ConnectionEvent::TextHandled(ControlOutcome::Disconnected) => r
                        == ConnectionAction::End && t == ConnectionStateView {
                        close_category: "write_failed"@,
                        ..s
                    },
                    ConnectionEvent::BinaryReceived => r == ConnectionAction::Close(
                        CloseDirective::unsupported_data_spec(),
                    ) && t == ConnectionStateView {
                        close_category: CloseDirective::unsupported_data_spec().category@,
                        ..s
                    },
                    ConnectionEvent::PingReceived => r == ConnectionAction::Continue && t == s,
                    ConnectionEvent::PongReceived(payload) => r == ConnectionAction::Continue && if s.pending_ping
                        == Some(payload@) {
                        t == ConnectionStateView { pending_ping: None, ..s }
                    } else {
                        t == s
                    },
                    ConnectionEvent::CloseReceived => r == ConnectionAction::End && t == s,
                    ConnectionEvent::HeartbeatTick => if s.pending_ping is None {
                        let next = if s.ping_sequence == u64::MAX {
                            0
                        } else {
                            (s.ping_sequence + 1) as u64
                        };
                        r matches ConnectionAction::SendPing(p) && p@ == be_bytes(next) && t
                            == ConnectionStateView {
                            ping_sequence: next,
                            pending_ping: Some(be_bytes(next)),
                            ..s
                        }
                    } else {
                        r == ConnectionAction::Continue && t == s
                    },
                    ConnectionEvent::PingWriteFailed => r == ConnectionAction::End && t
                        == ConnectionStateView { close_category: "heartbeat_write_failed"@, ..s },
                }
            }),
    {
        match event {
            ConnectionEvent::CloseSignal(None) => ConnectionAction::Continue,
            ConnectionEvent::CloseSignal(Some(d)) => {
                self.close_category = d.category;
                ConnectionAction::Close(*d)
            },
            ConnectionEvent::CloseSignalLost => {
                self.close_category = "hub_closed";
                ConnectionAction::End
            },
            ConnectionEvent::SessionExpired => {
                self.close_category = "session_expired";
                ConnectionAction::Close(CloseDirective::session_revoked())
            },
            ConnectionEvent::PongTimedOut => {
                if self.pending_ping.is_some() {
                    let d = CloseDirective::heartbeat_timeout();
                    self.close_category = d.category;
                    ConnectionAction::Close(d)
                } else {
                    ConnectionAction::Continue
                }
            },
            ConnectionEvent::OutboundMessage => ConnectionAction::Forward,
            ConnectionEvent::OutboundClosed => {
                self.close_category = "outbound_closed";
                ConnectionAction::End
            },
            ConnectionEvent::OutboundWriteFailed => {
                self.close_category = "write_failed";
                ConnectionAction::End
            },
            ConnectionEvent::PeerFinished => ConnectionAction::End,
            ConnectionEvent::ReadFailed => {
                self.close_category = "read_failed";
                ConnectionAction::End
            },
            ConnectionEvent::TextReceived => ConnectionAction::HandleText,
            ConnectionEvent::TextHandled(ControlOutcome::Continue) => ConnectionAction::Continue,
            ConnectionEvent::TextHandled(ControlOutcome::Stop(d)) => {
                self.close_category = d.category;
                ConnectionAction::Close(*d)
            },
            ConnectionEvent::TextHandled(ControlOutcome::Disconnected) => {
                self.close_category = "write_failed";
                ConnectionAction::End
            },
            ConnectionEvent::BinaryReceived => {
                let d = CloseDirective::unsupported_data();
                self.close_category = d.category;
                ConnectionAction::Close(d)
            },
            ConnectionEvent::PingReceived => ConnectionAction::Continue,
            ConnectionEvent::PongReceived(payload) => {
                if answers_ping(&self.pending_ping, payload) {
                    self.pending_ping = None;
                }
                ConnectionAction::Continue
            },
            ConnectionEvent::CloseReceived => ConnectionAction::End,
            ConnectionEvent::HeartbeatTick => {
                if self.pending_ping.is_none() {
                    self.ping_sequence = if self.ping_sequence == u64::MAX {
                        0
                    } else {
                        self.ping_sequence + 1
                    };
                    let payload = be_bytes_of(self.ping_sequence);
                    self.pending_ping = Some(payload);
                    ConnectionAction::SendPing(payload)
                } else {
                    ConnectionAction::Continue
                }
            },
            ConnectionEvent::PingWriteFailed => {
                self.close_category = "heartbeat_write_failed";
                ConnectionAction::End
            },
        }
    }
}

} // verus!

verus! {

/// The answer to a WebSocket upgrade that cannot proceed: a client that
/// does not speak the subprotocol makes an invalid request, and a hub that
/// refuses the reservation is unavailable.
pub fn upgrade_refusal(protocol_selected: bool, reservation_refused: bool) -> (r: Option<Problem>)
    ensures
        !protocol_selected ==> (r matches Some(p) && p@ == invalid_request_problem()),
        protocol_selected && reservation_refused ==> (r matches Some(p) && p@
            == unavailable_problem()),
        protocol_selected && !reservation_refused ==> r is None,
{
    if !protocol_selected {
        return Some(Problem::invalid_request());
    }
    if reservation_refused {
        return Some(Problem::unavailable());
    }
    None
}

/// The answer once the session behind an upgrade was checked again: an
/// ended session is unauthenticated; a failed check is answered as any
/// authentication failure.
pub fn revalidation_refusal(active: Result<bool, AuthError>) -> (r: Option<Problem>)
    ensures
        match active {
            Ok(true) => r is None,
            Ok(false) => r matches Some(p) && p@ == unauthenticated_problem(),
            Err(AuthError::LoginCapacityReached) => r matches Some(p) && p@ == unavailable_problem(),
            Err(_) => r matches Some(p) && p@ == internal_problem(),
        },
{
    match active {
        Ok(true) => None,
        Ok(false) => Some(Problem::unauthenticated()),
        Err(e) => Some(auth_operation_problem(&e)),
    }
}

} // verus!
