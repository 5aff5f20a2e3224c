use std::sync::Arc;

use tokio::sync::{mpsc, watch};
use vstd::prelude::*;

use crate::realtime::CloseDirective;

verus! {

#[verifier::external_type_specification]
#[verifier::external_body]
#[verifier::reject_recursive_types(T)]
pub struct ExOutboundSender<T>(mpsc::Sender<T>);

#[verifier::external_type_specification]
#[verifier::external_body]
#[verifier::reject_recursive_types(T)]
pub struct ExOutboundReceiver<T>(mpsc::Receiver<T>);

#[verifier::external_type_specification]
#[verifier::external_body]
#[verifier::reject_recursive_types(T)]
pub struct ExWatchSender<T>(watch::Sender<T>);

#[verifier::external_type_specification]
#[verifier::external_body]
#[verifier::reject_recursive_types(T)]
pub struct ExWatchReceiver<T>(watch::Receiver<T>);

/// What happened to a message offered to a connection's outbound queue.
#[derive(Clone, Copy, Debug, PartialEq, Eq, Structural)]
pub enum Delivery {
    /// The message was queued.
    Queued,
    /// The connection's reader is gone.
    Closed,
    /// The queue is full.
    Full,
}

/// The largest queue capacity that `tokio::sync::mpsc::channel` accepts.
pub const MAX_QUEUE_CAPACITY: usize = usize::MAX >> 3;

/// Creates a bounded outbound queue.
///
/// Trusted: calls `tokio::sync::mpsc::channel`, which panics unless
/// `0 < capacity <= usize::MAX >> 3`; hence the `requires`.
#[verifier::external_body]
pub(crate) fn outbound_queue(capacity: usize) -> (mpsc::Sender<Arc<str>>, mpsc::Receiver<Arc<str>>)
    requires
        0 < capacity <= MAX_QUEUE_CAPACITY,
{
    mpsc::channel(capacity)
}

/// Creates the channel on which a connection learns that it must close; it
/// starts with no directive.
///
/// Trusted: calls `tokio::sync::watch::channel(None)`.
#[verifier::external_body]
pub(crate) fn close_signal() -> (watch::Sender<Option<CloseDirective>>, watch::Receiver<Option<CloseDirective>>) {
    watch::channel(None)
}

/// Offers `message` to an outbound queue without waiting.
///
/// Trusted: calls `tokio::sync::mpsc::Sender::try_send`. Which outcome comes
/// back depends on the receiving task, so nothing is stated of it.
#[verifier::external_body]
pub(crate) fn offer(sender: &mpsc::Sender<Arc<str>>, message: Arc<str>) -> (r: Delivery) {
    match sender.try_send(message) {
        Ok(()) => Delivery::Queued,
        Err(mpsc::error::TrySendError::Closed(_)) => Delivery::Closed,
        Err(mpsc::error::TrySendError::Full(_)) => Delivery::Full,
    }
}

/// Tells a connection to close with `directive`.
///
/// Trusted: calls `tokio::sync::watch::Sender::send_replace`, which stores the
/// value whether or not a receiver is still listening.
#[verifier::external_body]
pub(crate) fn signal_close(sender: &watch::Sender<Option<CloseDirective>>, directive: CloseDirective) {
    let _ = sender.send_replace(Some(directive));
}

} // verus!
