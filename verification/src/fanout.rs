//! Notification fan-out: a process-wide broadcast channel with one
//! publisher (the counter coordinator) and any number of subscribers
//! (websocket sessions).
//!
//! The channel itself is tokio's broadcast primitive, reached through
//! trusted wrappers; the channel mutates through shared references, so the
//! wrappers state only what holds of every outcome. The decisions a
//! subscriber session takes on each delivery outcome are ordinary verified
//! functions here; the transport loop around them performs the awaits.

use vstd::prelude::*;

use tokio::sync::broadcast::{Receiver, Sender};

verus! {

/// Declares `tokio::sync::broadcast::Sender` so that it can stand in
/// signatures; the value is opaque here (it mutates through shared
/// references, under its own locks).
#[verifier::external_type_specification]
#[verifier::external_body]
#[verifier::reject_recursive_types(T)]
pub struct ExSender<T>(Sender<T>);

/// Declares `tokio::sync::broadcast::Receiver`; opaque for the same
/// reason.
#[verifier::external_type_specification]
#[verifier::external_body]
#[verifier::reject_recursive_types(T)]
pub struct ExReceiver<T>(Receiver<T>);

/// What one attempt to read from a subscription yields.
pub enum RecvOutcome {
    /// A published key, delivered in publish order.
    Message(String),
    /// Nothing pending right now.
    Empty,
    /// The subscriber fell behind the channel's bounded history buffer and
    /// this many oldest messages were dropped for it; it is now caught up
    /// to the oldest retained message instead of blocking the publisher.
    Lagged(u64),
    /// The channel has no publisher any more and nothing is pending.
    Closed,
}

/// Relies on `tokio::sync::broadcast::channel`: creates a channel able to
/// hold at least `capacity` in-flight messages (tokio rounds the buffer up
/// to a power of two). Panics on a zero capacity or one above
/// `usize::MAX / 2`, so those are excluded here.
#[verifier::external_body]
pub fn fanout_channel(capacity: usize) -> (Sender<String>, Receiver<String>)
    requires
        1 <= capacity <= usize::MAX / 2,
{
    tokio::sync::broadcast::channel(capacity)
}

/// Relies on `tokio::sync::broadcast::Sender::send`: delivers `key` to every
/// receiver subscribed at this moment and returns how many there were, or
/// `None` when there was none (tokio reports that as an error; dropping the
/// message then is not a failure of the publisher). Never blocks: a slow
/// subscriber only loses its own oldest messages.
#[verifier::external_body]
pub fn publish(fanout: &Sender<String>, key: String) -> (receivers: Option<usize>)
    ensures
        receivers is Some ==> receivers->0 >= 1,
{
    fanout.send(key).ok()
}

/// Relies on `tokio::sync::broadcast::Sender::subscribe`: creates a new
/// subscription that sees exactly the keys published after this call.
#[verifier::external_body]
pub fn subscribe(fanout: &Sender<String>) -> Receiver<String> {
    fanout.subscribe()
}

/// Relies on `tokio::sync::broadcast::Receiver::try_recv`: yields the next
/// pending message in publish order, or says why there is none. A `Lagged`
/// outcome reports the number of messages dropped for this subscriber,
/// which tokio only reports when at least one was in fact dropped.
#[verifier::external_body]
pub fn try_receive(rx: &mut Receiver<String>) -> (out: RecvOutcome)
    ensures
        out is Lagged ==> out->Lagged_0 >= 1,
{
    match rx.try_recv() {
        Ok(key) => RecvOutcome::Message(key),
        Err(tokio::sync::broadcast::error::TryRecvError::Empty) => RecvOutcome::Empty,
        Err(tokio::sync::broadcast::error::TryRecvError::Lagged(n)) => RecvOutcome::Lagged(n),
        Err(tokio::sync::broadcast::error::TryRecvError::Closed) => RecvOutcome::Closed,
    }
}

/// What a websocket session does with one delivery outcome.
pub enum WsAction {
    /// Forward this key to the connected client.
    Forward(String),
    /// Nothing to forward; keep the session and wait again (after a lag the
    /// subscriber is already caught up to the oldest retained message).
    KeepWaiting,
    /// The channel is gone; end the session.
    Disconnect,
}

/// The decision a subscriber session takes on each delivery outcome: a
/// received key is forwarded to the client, an empty read and a lag are
/// waited out (a lag is reported, never fatal), and a closed channel ends
/// the session.
pub fn ws_step(event: RecvOutcome) -> (action: WsAction)
    ensures
        match event {
            RecvOutcome::Message(key) => action == WsAction::Forward(key),
            RecvOutcome::Empty => action == WsAction::KeepWaiting,
            RecvOutcome::Lagged(_) => action == WsAction::KeepWaiting,
            RecvOutcome::Closed => action == WsAction::Disconnect,
        },
{
    match event {
        RecvOutcome::Message(key) => WsAction::Forward(key),
        RecvOutcome::Empty => WsAction::KeepWaiting,
        RecvOutcome::Lagged(_) => WsAction::KeepWaiting,
        RecvOutcome::Closed => WsAction::Disconnect,
    }
}

/// What one message from the websocket client means for the session.
pub enum ClientEvent {
    Text,
    Binary,
    Ping,
    Pong,
    Close,
    ReadFailed,
}

/// The decision a session takes on traffic from its client: every message
/// is tolerated and logged by the transport, except that a close frame or a
/// failed read ends the session.
pub fn ws_client_step(event: ClientEvent) -> (keep: bool)
    ensures
        keep == !(event is Close || event is ReadFailed),
{
    match event {
        ClientEvent::Close => false,
        ClientEvent::ReadFailed => false,
        _ => true,
    }
}

} // verus!
