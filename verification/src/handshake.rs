//! Resolving the first events of a freshly identified connection into the
//! session-ready event.
//!
//! The resolver is a machine of two states. In [`Handshake::AwaitingFirstReady`]
//! a session invalidation is answered by identifying once more; in
//! [`Handshake::AwaitingRetryReady`] nothing but the ready event is accepted.
//! The caller owns the connection: it reads an event, hands it to
//! [`parse_ready`], and does what the returned step says.
use crate::error::Error;
use crate::error::GatewayError;
use serde_json::Value;
use vstd::prelude::*;

verus! {

/// A dispatched event, as far as session start-up tells events apart. `R` is
/// the decoded content of the ready event.
#[derive(Debug, PartialEq)]
pub enum Event<R> {
    /// The session is established.
    Ready(R),
    /// Any other dispatch.
    Other,
}

/// A decoded message from the gateway.
#[derive(Debug, PartialEq)]
pub enum GatewayEvent<R> {
    /// An event with the sequence number it was dispatched under.
    Dispatch(u64, Event<R>),
    /// The gateway asks for a heartbeat now.
    Heartbeat(u64),
    /// The gateway asks the client to reconnect.
    Reconnect,
    /// The session is no longer valid and has to be identified again.
    InvalidateSession,
    /// The gateway's greeting, with the heartbeat interval in milliseconds.
    Hello(u64),
    /// The gateway acknowledges a heartbeat.
    HeartbeatAck,
}

/// Where the resolver stands.
#[derive(Debug, PartialEq)]
pub enum Handshake {
    /// No event has been seen. `identification` is the identify message that
    /// opened the connection, kept for one retry.
    AwaitingFirstReady { identification: Value },
    /// The session was invalidated once and identified again.
    AwaitingRetryReady,
}

/// What the caller does after an event.
#[derive(Debug, PartialEq)]
pub enum HandshakeStep<R> {
    /// The handshake is over: with the ready event and the sequence number
    /// the session starts at, or with the reason it failed. No further event
    /// is read.
    Resolved(Result<(R, u64), Error>),
    /// Send `resend` to the gateway, read exactly one more event, and hand
    /// it in together with `state`.
    Retry { resend: Value, state: Handshake },
}

impl<R> GatewayEvent<R> {
    /// The event is the dispatch of a ready event.
    pub open spec fn is_ready(self) -> bool {
        self matches GatewayEvent::Dispatch(_, Event::Ready(_))
    }
}

/// The step that follows `event` in `state`.
pub open spec fn handshake_step<R>(state: Handshake, event: GatewayEvent<R>) -> HandshakeStep<R> {
    match event {
        GatewayEvent::Dispatch(seq, Event::Ready(ready)) => HandshakeStep::Resolved(
            Ok((ready, seq)),
        ),
        GatewayEvent::InvalidateSession => match state {
            Handshake::AwaitingFirstReady { identification } => HandshakeStep::Retry {
                resend: identification,
                state: Handshake::AwaitingRetryReady,
            },
            Handshake::AwaitingRetryReady => HandshakeStep::Resolved(
                Err(Error::Gateway(GatewayError::InvalidHandshake)),
            ),
        },
        _ => HandshakeStep::Resolved(Err(Error::Gateway(GatewayError::InvalidHandshake))),
    }
}

/// Resolves one event read from a connection that has just been identified.
///
/// A dispatched ready event ends the handshake with that event and its
/// sequence number, in either state. A session invalidation is answered once,
/// by sending the identify message again; a second one fails the handshake, as
/// does every other event.
pub fn parse_ready<R>(state: Handshake, event: GatewayEvent<R>) -> (step: HandshakeStep<R>)
    ensures
        step == handshake_step(state, event),
{
    match event {
        GatewayEvent::Dispatch(seq, Event::Ready(ready)) => HandshakeStep::Resolved(
            Ok((ready, seq)),
        ),
        GatewayEvent::InvalidateSession => match state {
            Handshake::AwaitingFirstReady { identification } => HandshakeStep::Retry {
                resend: identification,
                state: Handshake::AwaitingRetryReady,
            },
            Handshake::AwaitingRetryReady => HandshakeStep::Resolved(
                Err(Error::Gateway(GatewayError::InvalidHandshake)),
            ),
        },
        _ => HandshakeStep::Resolved(Err(Error::Gateway(GatewayError::InvalidHandshake))),
    }
}

/// A handshake as a whole: how it ended, what was sent on the way, and how
/// many events were read.
pub struct HandshakeRun<R> {
    /// The outcome, or `None` while the resolver still waits for an event.
    pub outcome: Option<Result<(R, u64), Error>>,
    /// The messages sent to the gateway, in order.
    pub sent: Seq<Value>,
    /// The number of events read.
    pub reads: nat,
}

/// Runs the resolver from `state` over the events the connection delivers,
/// reading one event at a time and stopping at the first resolution.
pub open spec fn handshake_run<R>(state: Handshake, events: Seq<GatewayEvent<R>>) -> HandshakeRun<
    R,
>
    decreases events.len(),
{
    if events.len() == 0 {
        HandshakeRun { outcome: None, sent: Seq::empty(), reads: 0 }
    } else {
        match handshake_step(state, events[0]) {
            HandshakeStep::Resolved(outcome) => HandshakeRun {
                outcome: Some(outcome),
                sent: Seq::empty(),
                reads: 1,
            },
            HandshakeStep::Retry { resend, state: next } => {
                let rest = handshake_run(next, events.subrange(1, events.len() as int));
                HandshakeRun {
                    outcome: rest.outcome,
                    sent: seq![resend] + rest.sent,
                    reads: rest.reads + 1,
                }
            },
        }
    }
}

/// A ready event that arrives first is returned as it is, with its sequence
/// number, after one read and without anything being sent.
pub proof fn lemma_ready_resolves_at_once<R>(
    state: Handshake,
    ready: R,
    seq: u64,
    later: Seq<GatewayEvent<R>>,
)
    ensures
        handshake_step(state, GatewayEvent::Dispatch(seq, Event::Ready(ready)))
            == HandshakeStep::Resolved(Ok((ready, seq))),
        handshake_run(state, seq![GatewayEvent::Dispatch(seq, Event::Ready(ready))] + later)
            == (HandshakeRun { outcome: Some(Ok((ready, seq))), sent: Seq::empty(), reads: 1 }),
{
}

/// A session invalidation followed by a ready event succeeds with that
/// event, after the identify message was sent again exactly once.
pub proof fn lemma_invalidation_then_ready<R>(
    identification: Value,
    ready: R,
    seq: u64,
    later: Seq<GatewayEvent<R>>,
)
    ensures
        handshake_run(
            Handshake::AwaitingFirstReady { identification },
            seq![GatewayEvent::InvalidateSession, GatewayEvent::Dispatch(seq, Event::Ready(ready))]
                + later,
        ) == (HandshakeRun {
            outcome: Some(Ok((ready, seq))),
            sent: seq![identification],
            reads: 2,
        }),
{
    // The run reads the invalidation, identifies again, and goes on with
    // what follows; there the ready event comes first.
    let events = seq![
        GatewayEvent::InvalidateSession,
        GatewayEvent::Dispatch(seq, Event::Ready(ready)),
    ] + later;
    let rest = events.subrange(1, events.len() as int);
    assert(rest[0] == GatewayEvent::Dispatch(seq, Event::Ready(ready)));
    assert(seq![identification] + handshake_run(Handshake::AwaitingRetryReady, rest).sent
        =~= seq![identification]);
}

/// A session invalidation followed by anything but a ready event fails the
/// handshake after the second read: no third event is asked for, and the
/// identify message was sent again exactly once.
pub proof fn lemma_invalidation_then_other<R>(
    identification: Value,
    second: GatewayEvent<R>,
    later: Seq<GatewayEvent<R>>,
)
    requires
        !second.is_ready(),
    ensures
        handshake_run(
            Handshake::AwaitingFirstReady { identification },
            seq![GatewayEvent::InvalidateSession, second] + later,
        ) == (HandshakeRun::<R> {
            outcome: Some(Err(Error::Gateway(GatewayError::InvalidHandshake))),
            sent: seq![identification],
            reads: 2,
        }),
{
    // The run reads the invalidation, identifies again, and goes on with
    // what follows; there `second` comes first and ends it.
    let events = seq![GatewayEvent::InvalidateSession, second] + later;
    let rest = events.subrange(1, events.len() as int);
    assert(rest[0] == second);
    assert(seq![identification] + handshake_run(Handshake::AwaitingRetryReady, rest).sent
        =~= seq![identification]);
}

/// Whatever arrives first, anything but a ready event or a session
/// invalidation fails the handshake at once.
pub proof fn lemma_unexpected_event_fails<R>(state: Handshake, event: GatewayEvent<R>)
    requires
        !event.is_ready(),
        !(event is InvalidateSession),
    ensures
        handshake_step(state, event) == HandshakeStep::<R>::Resolved(
            Err(Error::Gateway(GatewayError::InvalidHandshake)),
        ),
{
}

/// No handshake reads more than two events or sends more than one message,
/// and the only message it ever sends is the identify message it was given.
pub proof fn lemma_handshake_is_bounded<R>(state: Handshake, events: Seq<GatewayEvent<R>>)
    ensures
        handshake_run(state, events).reads <= 2,
        handshake_run(state, events).sent.len() <= 1,
        state is AwaitingRetryReady ==> handshake_run(state, events).sent.len() == 0
            && handshake_run(state, events).reads <= 1,
        handshake_run(state, events).sent.len() == 1 ==> (state
            matches Handshake::AwaitingFirstReady { identification }
            && handshake_run(state, events).sent[0] == identification),
        events.len() >= 2 ==> handshake_run(state, events).outcome is Some,
    decreases events.len(),
{
    if events.len() > 0 {
        match handshake_step(state, events[0]) {
            HandshakeStep::Resolved(_) => {},
            HandshakeStep::Retry { resend, state: next } => {
                lemma_handshake_is_bounded(next, events.subrange(1, events.len() as int));
            },
        }
    }
}

} // verus!
