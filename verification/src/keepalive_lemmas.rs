//! What holds of every run of the keepalive loop.
use crate::clock::interval_millis;
use crate::clock::lemma_plus_millis;
use crate::clock::lemma_reached_is_nanos_order;
use crate::clock::Timestamp;
use crate::clock::NSEC_PER_MSEC;
use crate::keepalive::ActionView;
use crate::keepalive::GatewayStatus;
use crate::keepalive::Keepalive;
use crate::keepalive::KeepaliveEvent;
use crate::keepalive::SendError;
use crate::payload::heartbeat_json;
use vstd::prelude::*;

verus! {

/// The event replaces the connection.
pub open spec fn replaces_connection<S>(event: KeepaliveEvent<S>) -> bool {
    event matches KeepaliveEvent::Control(GatewayStatus::Sender(_))
}

/// The event changes the heartbeat interval.
pub open spec fn changes_interval<S>(event: KeepaliveEvent<S>) -> bool {
    event matches KeepaliveEvent::Control(GatewayStatus::Interval(_))
}

/// The event reports a sequence number.
pub open spec fn reports_sequence<S>(event: KeepaliveEvent<S>) -> bool {
    event matches KeepaliveEvent::Control(GatewayStatus::Sequence(_))
}

/// The event reports a heartbeat that reached the connection.
pub open spec fn reports_success<S>(event: KeepaliveEvent<S>) -> bool {
    event matches KeepaliveEvent::HeartbeatSent(Ok(_))
}

/// The loop ends in two cases and no others: the control channel is closed
/// for good, or a heartbeat fails for a reason that is not benign while the
/// heartbeat before it has not succeeded either.
pub proof fn lemma_loop_ends_when_told_or_dead<S>(state: Keepalive<S>, event: KeepaliveEvent<S>)
    ensures
        state.action(event) == ActionView::Shutdown <==> (event is Disconnected || (event
            matches KeepaliveEvent::HeartbeatSent(Err(error)) && !error.is_benign()
            && !state.last_successful)),
{
}

/// A heartbeat is sent only once the control channel is drained: every
/// message that was queued before has been applied when the deadline is
/// looked at.
pub proof fn lemma_heartbeat_only_when_drained<S>(state: Keepalive<S>, event: KeepaliveEvent<S>)
    ensures
        state.action(event) is Heartbeat <==> (event matches KeepaliveEvent::Idle(now)
            && state.due(now)),
        !(event is Idle) ==> state.after(event).next_tick == state.next_tick,
{
}

/// A heartbeat that reached the connection is recorded and remembered as a
/// success.
pub proof fn lemma_success_is_recorded<S>(state: Keepalive<S>)
    ensures
        state.action(KeepaliveEvent::HeartbeatSent(Ok(()))) == ActionView::Record,
        state.after(KeepaliveEvent::HeartbeatSent(Ok(()))) == (Keepalive {
            last_successful: true,
            ..state
        }),
{
}

/// A failed heartbeat that follows a successful one does not end the loop:
/// the loop rests and tries again at the next deadline, remembering the
/// failure.
pub proof fn lemma_single_failure_is_forgiven<S>(state: Keepalive<S>, error: SendError)
    requires
        state.last_successful,
        !error.is_benign(),
    ensures
        state.action(KeepaliveEvent::HeartbeatSent(Err(error))) == ActionView::Rest,
        state.after(KeepaliveEvent::HeartbeatSent(Err(error))) == (Keepalive {
            last_successful: false,
            ..state
        }),
{
}

/// The failure that is to be expected while a connection is torn down
/// changes nothing and never ends the loop.
pub proof fn lemma_benign_failure_is_swallowed<S>(state: Keepalive<S>, error: SendError)
    requires
        error.is_benign(),
    ensures
        state.action(KeepaliveEvent::HeartbeatSent(Err(error))) == ActionView::Rest,
        state.after(KeepaliveEvent::HeartbeatSent(Err(error))) == state,
{
}

/// As long as no heartbeat succeeds, a loop that remembers a failure keeps
/// remembering it.
pub proof fn lemma_failure_is_remembered<S>(state: Keepalive<S>, events: Seq<KeepaliveEvent<S>>)
    requires
        !state.last_successful,
        forall|i: int| 0 <= i < events.len() ==> !reports_success(#[trigger] events[i]),
    ensures
        !state.run(events).last_successful,
    decreases events.len(),
{
    if events.len() > 0 {
        let head = events.drop_last();
        assert forall|i: int| 0 <= i < head.len() implies !reports_success(#[trigger] head[i]) by {}
        lemma_failure_is_remembered(state, head);
    }
}

/// Two failed heartbeats in a row end the loop: whatever the state before
/// the first failure and whatever happens in between, as long as no
/// heartbeat succeeds there, the second failure is answered by shutting the
/// connection down.
pub proof fn lemma_second_failure_ends_loop<S>(
    state: Keepalive<S>,
    first: SendError,
    between: Seq<KeepaliveEvent<S>>,
    second: SendError,
)
    requires
        !first.is_benign(),
        !second.is_benign(),
        forall|i: int| 0 <= i < between.len() ==> !reports_success(#[trigger] between[i]),
    ensures
        state.after(KeepaliveEvent::HeartbeatSent(Err(first))).run(between).action(
            KeepaliveEvent::HeartbeatSent(Err(second)),
        ) == ActionView::Shutdown,
{
    lemma_failure_is_remembered(state.after(KeepaliveEvent::HeartbeatSent(Err(first))), between);
}

/// A loop whose first heartbeat fails ends at once: it starts without a
/// success to its name.
pub proof fn lemma_first_failure_ends_loop<S>(
    interval: u64,
    now: Timestamp,
    sender: S,
    between: Seq<KeepaliveEvent<S>>,
    error: SendError,
)
    requires
        !error.is_benign(),
        forall|i: int| 0 <= i < between.len() ==> !reports_success(#[trigger] between[i]),
    ensures
        Keepalive::initial(interval, now, sender).run(between).action(
            KeepaliveEvent::HeartbeatSent(Err(error)),
        ) == ActionView::Shutdown,
{
    lemma_failure_is_remembered(Keepalive::initial(interval, now, sender), between);
}

/// A connection that replaced another one stays the connection of the loop
/// until it is replaced itself, whatever else happens.
pub proof fn lemma_replaced_connection_stays<S>(
    state: Keepalive<S>,
    sender: S,
    events: Seq<KeepaliveEvent<S>>,
)
    requires
        forall|i: int| 0 <= i < events.len() ==> !replaces_connection(#[trigger] events[i]),
    ensures
        state.after(KeepaliveEvent::Control(GatewayStatus::Sender(sender))).run(events).sender
            == sender,
    decreases events.len(),
{
    if events.len() > 0 {
        let head = events.drop_last();
        assert forall|i: int| 0 <= i < head.len() implies !replaces_connection(
            #[trigger] head[i],
        ) by {}
        lemma_replaced_connection_stays(state, sender, head);
    }
}

/// The heartbeat carries the sequence number that was reported last: once
/// `seq` is reported, and until another number is, every heartbeat that
/// falls due carries `seq`.
pub proof fn lemma_heartbeat_carries_last_sequence<S>(
    state: Keepalive<S>,
    seq: u64,
    events: Seq<KeepaliveEvent<S>>,
    now: Timestamp,
)
    requires
        forall|i: int| 0 <= i < events.len() ==> !reports_sequence(#[trigger] events[i]),
        state.after(KeepaliveEvent::Control(GatewayStatus::Sequence(seq))).run(events).due(now),
    ensures
        state.after(KeepaliveEvent::Control(GatewayStatus::Sequence(seq))).run(
            events,
        ).last_sequence == seq,
        state.after(KeepaliveEvent::Control(GatewayStatus::Sequence(seq))).run(events).action(
            KeepaliveEvent::Idle(now),
        ) == ActionView::Heartbeat(heartbeat_json(seq)),
{
    lemma_sequence_stays(state.after(KeepaliveEvent::Control(GatewayStatus::Sequence(seq))), events);
}

/// The sequence number changes only when one is reported.
pub proof fn lemma_sequence_stays<S>(state: Keepalive<S>, events: Seq<KeepaliveEvent<S>>)
    requires
        forall|i: int| 0 <= i < events.len() ==> !reports_sequence(#[trigger] events[i]),
    ensures
        state.run(events).last_sequence == state.last_sequence,
    decreases events.len(),
{
    if events.len() > 0 {
        let head = events.drop_last();
        assert forall|i: int| 0 <= i < head.len() implies !reports_sequence(#[trigger] head[i]) by {}
        lemma_sequence_stays(state, head);
    }
}

/// A new interval leaves the deadline that is already set where it is and
/// counts from there: the deadline after the next heartbeat lies exactly one
/// new interval later.
pub proof fn lemma_interval_counts_from_next_deadline<S>(
    state: Keepalive<S>,
    interval: u64,
    now: Timestamp,
)
    requires
        state.wf(),
        state.after(KeepaliveEvent::Control(GatewayStatus::Interval(interval))).due(now),
        state.after(KeepaliveEvent::Control(GatewayStatus::Interval(interval))).accepts(
            &KeepaliveEvent::Idle(now),
        ),
    ensures
        state.after(KeepaliveEvent::Control(GatewayStatus::Interval(interval))).next_tick
            == state.next_tick,
        state.after(KeepaliveEvent::Control(GatewayStatus::Interval(interval))).after(
            KeepaliveEvent::Idle(now),
        ).next_tick.nanos() == state.next_tick.nanos() + interval_millis(interval) * NSEC_PER_MSEC,
        interval <= i64::MAX ==> state.after(
            KeepaliveEvent::Control(GatewayStatus::Interval(interval)),
        ).after(KeepaliveEvent::Idle(now)).next_tick.nanos() == state.next_tick.nanos() + interval
            * NSEC_PER_MSEC,
{
    lemma_plus_millis(state.next_tick, interval_millis(interval));
}

/// The deadline moves by exactly one interval for each heartbeat that falls
/// due, and by nothing else: however late the loop handles an event, no
/// interval is skipped and none is shortened. The interval itself changes
/// only when a new one is dictated.
pub proof fn lemma_deadline_does_not_drift<S>(state: Keepalive<S>, events: Seq<KeepaliveEvent<S>>)
    requires
        state.wf(),
        state.accepts_all(events),
        forall|i: int| 0 <= i < events.len() ==> !changes_interval(#[trigger] events[i]),
    ensures
        state.run(events).wf(),
        state.run(events).base_interval == state.base_interval,
        state.run(events).next_tick.nanos() == state.next_tick.nanos() + state.firings(events)
            * (state.base_interval * NSEC_PER_MSEC),
    decreases events.len(),
{
    let step = state.base_interval * NSEC_PER_MSEC;
    if events.len() > 0 {
        let head = events.drop_last();
        assert forall|i: int| 0 <= i < head.len() implies !changes_interval(#[trigger] head[i]) by {}
        lemma_deadline_does_not_drift(state, head);
        let before = state.run(head);
        if let KeepaliveEvent::Idle(now) = events.last() {
            if before.due(now) {
                lemma_plus_millis(before.next_tick, before.base_interval);
                assert((state.firings(head) + 1) * step == state.firings(head) * step + step)
                    by (nonlinear_arith);
            }
        }
    } else {
        assert(0 * step == 0);
    }
}

/// Where the interval is positive, every heartbeat that falls due moves the
/// deadline strictly forward.
pub proof fn lemma_deadline_moves_forward<S>(state: Keepalive<S>, now: Timestamp)
    requires
        state.wf(),
        state.base_interval > 0,
        state.due(now),
        state.accepts(&KeepaliveEvent::Idle(now)),
    ensures
        state.after(KeepaliveEvent::Idle(now)).next_tick.nanos() > state.next_tick.nanos(),
        state.after(KeepaliveEvent::Idle(now)).next_tick.nanos() - state.next_tick.nanos()
            == state.base_interval * NSEC_PER_MSEC,
{
    lemma_plus_millis(state.next_tick, state.base_interval);
    assert(state.base_interval * NSEC_PER_MSEC > 0) by (nonlinear_arith)
        requires
            state.base_interval > 0,
            NSEC_PER_MSEC > 0,
    ;
}

/// Two heartbeats in a row lie one interval apart, give or take the time
/// the loop is late. `first` and `second` are the times at which the loop
/// found the two heartbeats due; if each of them is at most `tolerance`
/// nanoseconds past its deadline, the time between them differs from the
/// interval by at most `tolerance`, and where `tolerance` is shorter than
/// the interval the second lies after the first.
pub proof fn lemma_heartbeat_gap_within_tolerance<S>(
    state: Keepalive<S>,
    first: Timestamp,
    second: Timestamp,
    tolerance: int,
)
    requires
        state.wf(),
        first.wf(),
        second.wf(),
        state.due(first),
        state.accepts(&KeepaliveEvent::Idle(first)),
        state.after(KeepaliveEvent::Idle(first)).due(second),
        first.nanos() - state.next_tick.nanos() <= tolerance,
        second.nanos() - state.after(KeepaliveEvent::Idle(first)).next_tick.nanos() <= tolerance,
    ensures
        state.base_interval * NSEC_PER_MSEC - tolerance <= second.nanos() - first.nanos(),
        second.nanos() - first.nanos() <= state.base_interval * NSEC_PER_MSEC + tolerance,
        tolerance < state.base_interval * NSEC_PER_MSEC ==> second.nanos() > first.nanos(),
{
    lemma_plus_millis(state.next_tick, state.base_interval);
    lemma_reached_is_nanos_order(first, state.next_tick);
    lemma_reached_is_nanos_order(second, state.after(KeepaliveEvent::Idle(first)).next_tick);
}

} // verus!
