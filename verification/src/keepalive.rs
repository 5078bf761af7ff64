//! The decisions of the keepalive loop.
//!
//! One task owns the outbound connection of a session. It polls a control
//! channel, applies what it finds there in the order of arrival, and sends a
//! heartbeat whenever the deadline has passed. This module holds everything
//! that task decides; the task itself only performs the actions and reports
//! back what happened:
//!
//! * start with [`Keepalive::new`] and [`KeepaliveAction::Rest`];
//! * after a rest or a [`KeepaliveAction::Poll`], ask the channel for one
//!   message without blocking and report it as [`KeepaliveEvent::Control`],
//!   an empty channel as [`KeepaliveEvent::Idle`] with the current time, and
//!   a channel without producers as [`KeepaliveEvent::Disconnected`];
//! * after a [`KeepaliveAction::Heartbeat`], report how the send went as
//!   [`KeepaliveEvent::HeartbeatSent`].
//!
//! Every send goes to the connection held by the state that [`keepalive`]
//! returned together with the action.
use crate::clock::interval_millis;
use crate::clock::Timestamp;
use crate::clock::NSEC_PER_MSEC;
use crate::constants::BROKEN_PIPE;
use crate::constants::NOT_CONNECTED;
use crate::json::json_of;
use crate::json::Json;
use crate::payload::heartbeat;
use crate::payload::heartbeat_json;
use serde_json::Value;
use vstd::prelude::*;

verus! {

/// A message on the control channel of the keepalive loop. `S` is the write
/// side of a connection.
#[derive(Debug, PartialEq)]
pub enum GatewayStatus<S> {
    /// The gateway dictated a new heartbeat interval, in milliseconds.
    Interval(u64),
    /// The connection was replaced; all further traffic goes to this one.
    Sender(S),
    /// Send this payload now.
    SendMessage(Value),
    /// An event with this sequence number was received.
    Sequence(u64),
}

/// Why a send failed.
#[derive(Clone, Copy, Debug, PartialEq, Eq, Structural)]
pub enum SendError {
    /// The transport failed, with the error code of the operating system
    /// where it gave one.
    Io(Option<i32>),
    /// Anything else.
    Other,
}

/// What the loop's task reports.
#[derive(Debug, PartialEq)]
pub enum KeepaliveEvent<S> {
    /// The control channel handed out a message.
    Control(GatewayStatus<S>),
    /// The control channel is empty; the clock reads this time.
    Idle(Timestamp),
    /// The control channel is closed for good.
    Disconnected,
    /// The heartbeat was handed to the connection, or could not be.
    HeartbeatSent(Result<(), SendError>),
}

/// What the loop's task does next.
#[derive(Debug, PartialEq)]
pub enum KeepaliveAction {
    /// Ask the control channel for the next message at once.
    Poll,
    /// Send this payload, note a failure in the log and go on; then ask the
    /// control channel for the next message at once.
    Send(Value),
    /// Send this heartbeat and report the outcome.
    Heartbeat(Value),
    /// Store the current time as the time of the last heartbeat, then rest.
    Record,
    /// Rest for one poll interval, then ask the control channel.
    Rest,
    /// Shut the connection down in both directions and end the loop.
    Shutdown,
}

/// A [`KeepaliveAction`] with its heartbeat read as a JSON document.
pub enum ActionView {
    Poll,
    Send(Value),
    Heartbeat(Json),
    Record,
    Rest,
    Shutdown,
}

impl View for KeepaliveAction {
    type V = ActionView;

    open spec fn view(&self) -> ActionView {
        match *self {
            KeepaliveAction::Poll => ActionView::Poll,
            KeepaliveAction::Send(payload) => ActionView::Send(payload),
            KeepaliveAction::Heartbeat(payload) => ActionView::Heartbeat(json_of(payload)),
            KeepaliveAction::Record => ActionView::Record,
            KeepaliveAction::Rest => ActionView::Rest,
            KeepaliveAction::Shutdown => ActionView::Shutdown,
        }
    }
}

/// How the shutdown of the connection ended.
#[derive(Clone, Copy, Debug, PartialEq, Eq, Structural)]
pub enum ShutdownReport {
    /// Both directions were shut down.
    Clean,
    /// The peer had shut the connection down already; nothing to report.
    AlreadyClosed,
    /// The shutdown failed for another reason, worth a warning and no more.
    Failed,
}

impl SendError {
    /// The failure is the race that is to be expected while a connection is
    /// torn down: the operating system reports a broken pipe.
    pub open spec fn is_benign_spec(&self) -> bool {
        *self == SendError::Io(Some(BROKEN_PIPE))
    }

    /// Whether the failure is the expected race of a connection that is
    /// being torn down.
    #[verifier::when_used_as_spec(is_benign_spec)]
    pub fn is_benign(&self) -> (r: bool)
        ensures
            r == self.is_benign_spec(),
    {
        match self {
            SendError::Io(Some(code)) => *code == BROKEN_PIPE,
            _ => false,
        }
    }
}

/// What is to be said about the shutdown of the connection, given the error
/// code of the operating system where the shutdown failed with one.
pub open spec fn shutdown_report_spec(outcome: Result<(), Option<i32>>) -> ShutdownReport {
    match outcome {
        Ok(_) => ShutdownReport::Clean,
        Err(code) => if code == Some(NOT_CONNECTED) {
            ShutdownReport::AlreadyClosed
        } else {
            ShutdownReport::Failed
        },
    }
}

/// Judges the shutdown that ends the loop. A connection that the peer has
/// shut down already is no failure.
#[verifier::when_used_as_spec(shutdown_report_spec)]
pub fn shutdown_report(outcome: Result<(), Option<i32>>) -> (report: ShutdownReport)
    ensures
        report == shutdown_report_spec(outcome),
{
    match outcome {
        Ok(_) => ShutdownReport::Clean,
        Err(Some(code)) => if code == NOT_CONNECTED {
            ShutdownReport::AlreadyClosed
        } else {
            ShutdownReport::Failed
        },
        Err(None) => ShutdownReport::Failed,
    }
}

/// The state of the keepalive loop.
#[derive(Debug, PartialEq)]
pub struct Keepalive<S> {
    /// Time between two heartbeats, in milliseconds.
    pub base_interval: i64,
    /// When the next heartbeat is due.
    pub next_tick: Timestamp,
    /// The sequence number last reported on the control channel.
    pub last_sequence: u64,
    /// Whether the last heartbeat reached the connection.
    pub last_successful: bool,
    /// The connection all traffic goes to.
    pub sender: S,
}

impl<S> Keepalive<S> {
    /// The deadline is a well-formed timestamp.
    pub open spec fn wf(self) -> bool {
        self.next_tick.wf()
    }

    /// A heartbeat is due at `now`.
    pub open spec fn due(self, now: Timestamp) -> bool {
        now.reached(&self.next_tick)
    }

    /// The state the loop starts in at `now`, for a heartbeat interval of
    /// `interval` milliseconds.
    pub open spec fn initial(interval: u64, now: Timestamp, sender: S) -> Keepalive<S> {
        Keepalive {
            base_interval: interval_millis(interval),
            next_tick: now.plus_millis(interval_millis(interval)),
            last_sequence: 0,
            last_successful: false,
            sender,
        }
    }

    /// `event` can be handled: where it makes a heartbeat due, the deadline
    /// after this one is a time that can be counted.
    pub open spec fn accepts_spec(&self, event: &KeepaliveEvent<S>) -> bool {
        match *event {
            KeepaliveEvent::Idle(now) => self.due(now) ==> self.next_tick.can_add_millis(
                self.base_interval,
            ),
            _ => true,
        }
    }

    /// The state after `event`.
    pub open spec fn after(self, event: KeepaliveEvent<S>) -> Keepalive<S> {
        match event {
            KeepaliveEvent::Control(GatewayStatus::Interval(interval)) => Keepalive {
                base_interval: interval_millis(interval),
                ..self
            },
            KeepaliveEvent::Control(GatewayStatus::Sender(sender)) => Keepalive { sender, ..self },
            KeepaliveEvent::Control(GatewayStatus::SendMessage(_)) => self,
            KeepaliveEvent::Control(GatewayStatus::Sequence(seq)) => Keepalive {
                last_sequence: seq,
                ..self
            },
            KeepaliveEvent::Idle(now) => if self.due(now) {
                Keepalive { next_tick: self.next_tick.plus_millis(self.base_interval), ..self }
            } else {
                self
            },
            KeepaliveEvent::Disconnected => self,
            KeepaliveEvent::HeartbeatSent(Ok(_)) => Keepalive { last_successful: true, ..self },
            KeepaliveEvent::HeartbeatSent(Err(error)) => if error.is_benign() {
                self
            } else {
                Keepalive { last_successful: false, ..self }
            },
        }
    }

    /// The action that answers `event`.
    pub open spec fn action(self, event: KeepaliveEvent<S>) -> ActionView {
        match event {
            KeepaliveEvent::Control(GatewayStatus::SendMessage(payload)) => ActionView::Send(
                payload,
            ),
            KeepaliveEvent::Control(_) => ActionView::Poll,
            KeepaliveEvent::Idle(now) => if self.due(now) {
                ActionView::Heartbeat(heartbeat_json(self.last_sequence))
            } else {
                ActionView::Rest
            },
            KeepaliveEvent::Disconnected => ActionView::Shutdown,
            KeepaliveEvent::HeartbeatSent(Ok(_)) => ActionView::Record,
            KeepaliveEvent::HeartbeatSent(Err(error)) => if error.is_benign()
                || self.last_successful {
                ActionView::Rest
            } else {
                ActionView::Shutdown
            },
        }
    }

    /// The state after all of `events`, in order.
    pub open spec fn run(self, events: Seq<KeepaliveEvent<S>>) -> Keepalive<S>
        decreases events.len(),
    {
        if events.len() == 0 {
            self
        } else {
            self.run(events.drop_last()).after(events.last())
        }
    }

    /// Every one of `events` can be handled when its turn comes.
    pub open spec fn accepts_all(self, events: Seq<KeepaliveEvent<S>>) -> bool
        decreases events.len(),
    {
        events.len() > 0 ==> self.accepts_all(events.drop_last()) && self.run(
            events.drop_last(),
        ).accepts_spec(&events.last())
    }

    /// The number of heartbeats that fall due while `events` are handled.
    pub open spec fn firings(self, events: Seq<KeepaliveEvent<S>>) -> nat
        decreases events.len(),
    {
        if events.len() == 0 {
            0
        } else {
            let before = self.firings(events.drop_last());
            match events.last() {
                KeepaliveEvent::Idle(now) => if self.run(events.drop_last()).due(now) {
                    before + 1
                } else {
                    before
                },
                _ => before,
            }
        }
    }

    /// Starts the loop's state at `now`: the first heartbeat is due one
    /// interval from now, no sequence number has been seen, and no heartbeat
    /// has succeeded yet.
    pub fn new(interval: u64, now: Timestamp, sender: S) -> (state: Keepalive<S>)
        requires
            now.wf(),
            now.can_add_millis(interval_millis(interval)),
        ensures
            state == Keepalive::initial(interval, now, sender),
            state.wf(),
            state.next_tick.nanos() == now.nanos() + interval_millis(interval) * NSEC_PER_MSEC,
    {
        let base_interval = interval_millis(interval);
        Keepalive {
            base_interval,
            next_tick: now.add_millis(base_interval),
            last_sequence: 0,
            last_successful: false,
            sender,
        }
    }

    /// Whether `event` can be handed to [`keepalive`] in this state.
    #[verifier::when_used_as_spec(accepts_spec)]
    pub fn accepts(&self, event: &KeepaliveEvent<S>) -> (r: bool)
        ensures
            r == self.accepts_spec(event),
    {
        match event {
            KeepaliveEvent::Idle(now) => !now.reached(&self.next_tick)
                || self.next_tick.can_add_millis(self.base_interval),
            _ => true,
        }
    }
}

/// Handles one event of the keepalive loop and says what to do next.
///
/// Control messages take effect in the order they are handed in: a new
/// interval counts from the next deadline that is computed, a new connection
/// receives everything sent from now on, a payload is sent at once, and a
/// sequence number replaces the one the next heartbeat will carry. On an
/// empty channel a heartbeat is sent if its deadline has passed, and the
/// deadline moves on by one interval, however late the loop is. A heartbeat
/// that reached the connection is recorded. One that failed for any but the
/// benign reason is forgiven if the heartbeat before it succeeded, and ends
/// the loop otherwise. A closed channel ends the loop.
pub fn keepalive<S>(state: Keepalive<S>, event: KeepaliveEvent<S>) -> (r: (
    Keepalive<S>,
    KeepaliveAction,
))
    requires
        state.wf(),
        state.accepts(&event),
    ensures
        r.0 == state.after(event),
        r.1@ == state.action(event),
        r.0.wf(),
{
    let mut state = state;
    match event {
        KeepaliveEvent::Control(GatewayStatus::Interval(interval)) => {
            state.base_interval = interval_millis(interval);
            (state, KeepaliveAction::Poll)
        },
        KeepaliveEvent::Control(GatewayStatus::Sender(sender)) => {
            state.sender = sender;
            (state, KeepaliveAction::Poll)
        },
        KeepaliveEvent::Control(GatewayStatus::SendMessage(payload)) => (
            state,
            KeepaliveAction::Send(payload),
        ),
        KeepaliveEvent::Control(GatewayStatus::Sequence(seq)) => {
            state.last_sequence = seq;
            (state, KeepaliveAction::Poll)
        },
        KeepaliveEvent::Idle(now) => {
            if now.reached(&state.next_tick) {
                state.next_tick = state.next_tick.add_millis(state.base_interval);
                let payload = heartbeat(state.last_sequence);
                (state, KeepaliveAction::Heartbeat(payload))
            } else {
                (state, KeepaliveAction::Rest)
            }
        },
        KeepaliveEvent::Disconnected => (state, KeepaliveAction::Shutdown),
        KeepaliveEvent::HeartbeatSent(Ok(_)) => {
            state.last_successful = true;
            (state, KeepaliveAction::Record)
        },
        KeepaliveEvent::HeartbeatSent(Err(error)) => {
            if error.is_benign() {
                (state, KeepaliveAction::Rest)
            } else if state.last_successful {
                state.last_successful = false;
                (state, KeepaliveAction::Rest)
            } else {
                (state, KeepaliveAction::Shutdown)
            }
        },
    }
}

} // verus!
