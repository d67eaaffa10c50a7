//! The connection lifecycle decisions: what the queue consumer does with each
//! inbound event, how the supervisor reacts to connection outcomes, and when
//! the keepalive emitter emits or stops. The waiting, sending and reading
//! themselves are network work and stay with the caller, which feeds these
//! functions plain events and carries their decisions out.

use crate::KEEPALIVE_INTERVAL_SECS;
use crate::RECONNECT_DELAY_SECS;
use vstd::prelude::*;

verus! {

/// One event read off the streaming connection, as the consumer loop sees it.
pub enum InboundEvent {
    /// A text payload, handed to the router.
    Text(String),
    /// A liveness probe from the peer; discarded silently.
    Ping,
    /// A liveness answer from the peer; discarded silently.
    Pong,
    /// The peer closed the connection.
    Close,
    /// A binary payload; discarded silently.
    Binary(Vec<u8>),
}

/// What the consumer loop does with one inbound event.
pub enum ConsumerStep {
    /// Hand this text payload to the router, then go on.
    Route(String),
    /// Silently discard the event and go on.
    Discard,
    /// Stop consuming; the supervisor reconnects.
    Stop,
}

/// The consumer's reaction to an event: only a text payload is routed, only
/// a close frame stops the loop, and everything else is silently discarded.
pub open spec fn spec_consume(e: InboundEvent) -> ConsumerStep {
    match e {
        InboundEvent::Text(payload) => ConsumerStep::Route(payload),
        InboundEvent::Close => ConsumerStep::Stop,
        InboundEvent::Ping => ConsumerStep::Discard,
        InboundEvent::Pong => ConsumerStep::Discard,
        InboundEvent::Binary(_) => ConsumerStep::Discard,
    }
}

/// Decides what the consumer loop does with one inbound event.
pub fn consume_event(e: InboundEvent) -> (s: ConsumerStep)
    ensures
        s == spec_consume(e),
{
    match e {
        InboundEvent::Text(payload) => ConsumerStep::Route(payload),
        InboundEvent::Close => ConsumerStep::Stop,
        InboundEvent::Ping => ConsumerStep::Discard,
        InboundEvent::Pong => ConsumerStep::Discard,
        InboundEvent::Binary(_) => ConsumerStep::Discard,
    }
}

/// Only a close frame stops the consumer loop; in particular no dropped or
/// misshapen payload ever does.
pub proof fn lemma_only_close_stops(e: InboundEvent)
    ensures
        spec_consume(e) is Stop <==> e is Close,
{
}

/// The supervisor's two states.
#[derive(Debug, PartialEq, Eq, Structural, Clone, Copy)]
pub enum ConnState {
    Disconnected,
    Connected,
}

/// A connection outcome reported to the supervisor.
#[derive(Debug, PartialEq, Eq, Structural, Clone, Copy)]
pub enum ConnEvent {
    /// An open attempt succeeded.
    OpenSucceeded,
    /// An open attempt failed at the transport level.
    OpenFailed,
    /// An open connection was lost: a read error, a close frame, or the
    /// consumer observing end-of-stream.
    ConnectionLost,
}

/// What the supervisor asks its caller to do next.
#[derive(Debug, PartialEq, Eq, Structural, Clone, Copy)]
pub enum SupervisorAction {
    /// Start the keepalive emitter and the inbound reader on the fresh
    /// connection and consume its queue.
    StartSession,
    /// Wait this many seconds, then attempt to open again.
    RetryAfterDelay(u64),
}

/// Whether an outcome can be reported in a state: open attempts are made only
/// while disconnected, and only an open connection can be lost.
pub open spec fn event_fits(s: ConnState, e: ConnEvent) -> bool {
    match e {
        ConnEvent::OpenSucceeded => s is Disconnected,
        ConnEvent::OpenFailed => s is Disconnected,
        ConnEvent::ConnectionLost => s is Connected,
    }
}

/// The supervisor's transition: a successful open connects; any failure or
/// loss disconnects and schedules exactly one retry after the fixed delay —
/// no backoff growth, no retry cap, no terminal failure state.
pub open spec fn spec_supervisor_step(s: ConnState, e: ConnEvent) -> (ConnState, SupervisorAction) {
    match e {
        ConnEvent::OpenSucceeded => (ConnState::Connected, SupervisorAction::StartSession),
        ConnEvent::OpenFailed => (
            ConnState::Disconnected,
            SupervisorAction::RetryAfterDelay(RECONNECT_DELAY_SECS),
        ),
        ConnEvent::ConnectionLost => (
            ConnState::Disconnected,
            SupervisorAction::RetryAfterDelay(RECONNECT_DELAY_SECS),
        ),
    }
}

/// Advances the supervisor by one reported outcome.
pub fn supervisor_step(s: ConnState, e: ConnEvent) -> (r: (ConnState, SupervisorAction))
    requires
        event_fits(s, e),
    ensures
        r == spec_supervisor_step(s, e),
{
    match e {
        ConnEvent::OpenSucceeded => (ConnState::Connected, SupervisorAction::StartSession),
        ConnEvent::OpenFailed => (
            ConnState::Disconnected,
            SupervisorAction::RetryAfterDelay(RECONNECT_DELAY_SECS),
        ),
        ConnEvent::ConnectionLost => (
            ConnState::Disconnected,
            SupervisorAction::RetryAfterDelay(RECONNECT_DELAY_SECS),
        ),
    }
}

/// Losing an open connection disconnects the supervisor and schedules exactly
/// one reconnection attempt, after the fixed delay.
pub proof fn lemma_lost_connection_retries_once()
    ensures
        spec_supervisor_step(ConnState::Connected, ConnEvent::ConnectionLost) == (
            ConnState::Disconnected,
            SupervisorAction::RetryAfterDelay(RECONNECT_DELAY_SECS),
        ),
{
}

/// What the keepalive emitter does after one emission attempt.
#[derive(Debug, PartialEq, Eq, Structural, Clone, Copy)]
pub enum EmitterStep {
    /// Wait this many seconds, then emit one liveness signal.
    WaitThenEmit(u64),
    /// Stop emitting; the connection is gone.
    Stop,
}

/// The emitter's reaction to one emission attempt: while sends succeed it
/// emits again after the configured interval; the first failed send ends it.
pub open spec fn spec_keepalive_step(send_succeeded: bool) -> EmitterStep {
    if send_succeeded {
        EmitterStep::WaitThenEmit(KEEPALIVE_INTERVAL_SECS)
    } else {
        EmitterStep::Stop
    }
}

/// Decides whether the keepalive emitter keeps emitting.
pub fn keepalive_step(send_succeeded: bool) -> (s: EmitterStep)
    ensures
        s == spec_keepalive_step(send_succeeded),
{
    if send_succeeded {
        EmitterStep::WaitThenEmit(KEEPALIVE_INTERVAL_SECS)
    } else {
        EmitterStep::Stop
    }
}

/// Liveness signals are spaced by the configured interval while the
/// connection holds, and cease with the first failed send, hence within one
/// interval of disconnection.
pub proof fn lemma_keepalive_interval_and_stop()
    ensures
        spec_keepalive_step(true) == EmitterStep::WaitThenEmit(KEEPALIVE_INTERVAL_SECS),
        spec_keepalive_step(false) == EmitterStep::Stop,
{
}

} // verus!
