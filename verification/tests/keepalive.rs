use gateway_session::clock::Timestamp;
use gateway_session::constants::POLL_INTERVAL_MS;
use gateway_session::keepalive::keepalive;
use gateway_session::keepalive::shutdown_report;
use gateway_session::keepalive::GatewayStatus;
use gateway_session::keepalive::Keepalive;
use gateway_session::keepalive::KeepaliveAction;
use gateway_session::keepalive::KeepaliveEvent;
use gateway_session::keepalive::SendError;
use gateway_session::keepalive::ShutdownReport;
use gateway_session::payload::heartbeat;
use gateway_session::payload::identify;

fn at(sec: i64, nsec: i32) -> Timestamp {
    Timestamp { sec, nsec }
}

fn started(interval: u64) -> Keepalive<&'static str> {
    Keepalive::new(interval, at(1_000, 0), "first")
}

fn control(
    state: Keepalive<&'static str>,
    message: GatewayStatus<&'static str>,
) -> (Keepalive<&'static str>, KeepaliveAction) {
    keepalive(state, KeepaliveEvent::Control(message))
}

#[test]
fn new_sets_the_first_deadline_one_interval_ahead() {
    let state = Keepalive::new(40_000, at(1_000, 500_000_000), 7u8);
    assert_eq!(
        state,
        Keepalive {
            base_interval: 40_000,
            next_tick: at(1_040, 500_000_000),
            last_sequence: 0,
            last_successful: false,
            sender: 7u8,
        }
    );
}

#[test]
fn idle_before_the_deadline_rests() {
    let state = started(40_000);
    let (after, action) = keepalive(state, KeepaliveEvent::Idle(at(1_039, 999_999_999)));
    assert_eq!(action, KeepaliveAction::Rest);
    assert_eq!(after, started(40_000));
}

#[test]
fn idle_at_the_deadline_sends_a_heartbeat() {
    let (after, action) = keepalive(started(40_000), KeepaliveEvent::Idle(at(1_040, 0)));
    assert_eq!(action, KeepaliveAction::Heartbeat(heartbeat(0)));
    assert_eq!(after.next_tick, at(1_080, 0));
}

#[test]
fn three_sequences_before_the_tick_leave_the_last_one() {
    let state = started(40_000);
    let (state, a5) = control(state, GatewayStatus::Sequence(5));
    let (state, a6) = control(state, GatewayStatus::Sequence(6));
    let (state, a7) = control(state, GatewayStatus::Sequence(7));
    assert_eq!(a5, KeepaliveAction::Poll);
    assert_eq!(a6, KeepaliveAction::Poll);
    assert_eq!(a7, KeepaliveAction::Poll);
    assert_eq!(state.last_sequence, 7);
    let (state, action) = keepalive(state, KeepaliveEvent::Idle(at(1_040, 100_000_000)));
    assert_eq!(action, KeepaliveAction::Heartbeat(heartbeat(7)));
    match action {
        KeepaliveAction::Heartbeat(payload) => {
            assert_eq!(
                serde_json::to_string(&payload).unwrap(),
                "{\"d\":7,\"op\":1}"
            );
        }
        other => panic!("no heartbeat: {:?}", other),
    }
    assert_eq!(state.next_tick, at(1_080, 0));
}

#[test]
fn a_late_loop_does_not_skip_intervals() {
    let (state, action) = keepalive(started(40_000), KeepaliveEvent::Idle(at(1_500, 0)));
    assert_eq!(action, KeepaliveAction::Heartbeat(heartbeat(0)));
    assert_eq!(state.next_tick, at(1_080, 0));
    let (state, action) = keepalive(state, KeepaliveEvent::Idle(at(1_500, 0)));
    assert_eq!(action, KeepaliveAction::Heartbeat(heartbeat(0)));
    assert_eq!(state.next_tick, at(1_120, 0));
}

#[test]
fn successive_heartbeats_are_one_interval_apart() {
    let mut state = started(41_250);
    let mut deadlines = Vec::new();
    let polls = vec![
        at(1_041, 300_000_000),
        at(1_082, 550_000_000),
        at(1_123, 800_000_000),
        at(1_165, 50_000_000),
    ];
    for now in polls {
        let (next, action) = keepalive(state, KeepaliveEvent::Idle(now));
        assert!(matches!(action, KeepaliveAction::Heartbeat(_)));
        let (next, action) = keepalive(next, KeepaliveEvent::HeartbeatSent(Ok(())));
        assert_eq!(action, KeepaliveAction::Record);
        deadlines.push(next.next_tick);
        state = next;
    }
    assert_eq!(
        deadlines,
        vec![
            at(1_082, 500_000_000),
            at(1_123, 750_000_000),
            at(1_165, 0),
            at(1_206, 250_000_000),
        ]
    );
}

#[test]
fn a_new_interval_counts_from_the_next_deadline() {
    let (state, action) = control(started(40_000), GatewayStatus::Interval(10_000));
    assert_eq!(action, KeepaliveAction::Poll);
    assert_eq!(state.base_interval, 10_000);
    assert_eq!(state.next_tick, at(1_040, 0));
    let (state, action) = keepalive(state, KeepaliveEvent::Idle(at(1_039, 0)));
    assert_eq!(action, KeepaliveAction::Rest);
    let (state, action) = keepalive(state, KeepaliveEvent::Idle(at(1_040, 0)));
    assert_eq!(action, KeepaliveAction::Heartbeat(heartbeat(0)));
    assert_eq!(state.next_tick, at(1_050, 0));
}

#[test]
fn a_replaced_connection_is_the_one_that_stays() {
    let (state, action) = control(started(40_000), GatewayStatus::Sender("second"));
    assert_eq!(action, KeepaliveAction::Poll);
    assert_eq!(state.sender, "second");
    let (state, _) = control(state, GatewayStatus::Sequence(3));
    let (state, _) = control(state, GatewayStatus::Interval(5));
    let (state, _) = control(state, GatewayStatus::SendMessage(heartbeat(1)));
    let (state, _) = keepalive(state, KeepaliveEvent::Idle(at(2_000, 0)));
    let (state, _) = keepalive(state, KeepaliveEvent::HeartbeatSent(Ok(())));
    let (state, _) = keepalive(state, KeepaliveEvent::HeartbeatSent(Err(SendError::Other)));
    assert_eq!(state.sender, "second");
    let (state, _) = control(state, GatewayStatus::Sender("third"));
    assert_eq!(state.sender, "third");
}

#[test]
fn a_raw_message_is_sent_as_it_is() {
    let message = identify("abc", Some([1, 2]), "linux");
    let before = started(40_000);
    let (state, action) = control(before, GatewayStatus::SendMessage(message.clone()));
    assert_eq!(action, KeepaliveAction::Send(message));
    assert_eq!(state, started(40_000));
}

#[test]
fn a_closed_channel_ends_the_loop() {
    let (state, action) = keepalive(started(40_000), KeepaliveEvent::Disconnected);
    assert_eq!(action, KeepaliveAction::Shutdown);
    assert_eq!(state, started(40_000));
}

#[test]
fn a_success_is_recorded() {
    let (state, action) = keepalive(started(40_000), KeepaliveEvent::HeartbeatSent(Ok(())));
    assert_eq!(action, KeepaliveAction::Record);
    assert!(state.last_successful);
}

#[test]
fn one_failure_after_a_success_is_forgiven() {
    let (state, _) = keepalive(started(40_000), KeepaliveEvent::HeartbeatSent(Ok(())));
    let (state, action) = keepalive(state, KeepaliveEvent::HeartbeatSent(Err(SendError::Other)));
    assert_eq!(action, KeepaliveAction::Rest);
    assert!(!state.last_successful);
}

#[test]
fn two_failures_in_a_row_end_the_loop() {
    let (state, _) = keepalive(started(40_000), KeepaliveEvent::HeartbeatSent(Ok(())));
    let (state, first) = keepalive(
        state,
        KeepaliveEvent::HeartbeatSent(Err(SendError::Io(Some(104)))),
    );
    assert_eq!(first, KeepaliveAction::Rest);
    let (state, _) = control(state, GatewayStatus::Sequence(9));
    let (state, tick) = keepalive(state, KeepaliveEvent::Idle(at(1_040, 0)));
    assert_eq!(tick, KeepaliveAction::Heartbeat(heartbeat(9)));
    let (_, second) = keepalive(state, KeepaliveEvent::HeartbeatSent(Err(SendError::Io(None))));
    assert_eq!(second, KeepaliveAction::Shutdown);
}

#[test]
fn a_success_between_two_failures_forgives_both() {
    let (state, _) = keepalive(started(40_000), KeepaliveEvent::HeartbeatSent(Ok(())));
    let (state, first) = keepalive(state, KeepaliveEvent::HeartbeatSent(Err(SendError::Other)));
    let (state, _) = keepalive(state, KeepaliveEvent::HeartbeatSent(Ok(())));
    let (_, second) = keepalive(state, KeepaliveEvent::HeartbeatSent(Err(SendError::Other)));
    assert_eq!(first, KeepaliveAction::Rest);
    assert_eq!(second, KeepaliveAction::Rest);
}

#[test]
fn a_failure_of_the_first_heartbeat_ends_the_loop() {
    let (_, action) = keepalive(
        started(40_000),
        KeepaliveEvent::HeartbeatSent(Err(SendError::Other)),
    );
    assert_eq!(action, KeepaliveAction::Shutdown);
}

#[test]
fn a_broken_pipe_is_swallowed() {
    let benign = SendError::Io(Some(32));
    assert!(benign.is_benign());
    let (state, action) = keepalive(started(40_000), KeepaliveEvent::HeartbeatSent(Err(benign)));
    assert_eq!(action, KeepaliveAction::Rest);
    assert_eq!(state, started(40_000));
    let (state, _) = keepalive(state, KeepaliveEvent::HeartbeatSent(Ok(())));
    let (state, action) = keepalive(state, KeepaliveEvent::HeartbeatSent(Err(benign)));
    assert_eq!(action, KeepaliveAction::Rest);
    assert!(state.last_successful);
}

#[test]
fn only_a_broken_pipe_is_benign() {
    assert!(!SendError::Io(Some(107)).is_benign());
    assert!(!SendError::Io(Some(0)).is_benign());
    assert!(!SendError::Io(None).is_benign());
    assert!(!SendError::Other.is_benign());
}

#[test]
fn shutdown_report_swallows_a_peer_that_is_gone() {
    assert_eq!(shutdown_report(Ok(())), ShutdownReport::Clean);
    assert_eq!(shutdown_report(Err(Some(107))), ShutdownReport::AlreadyClosed);
    assert_eq!(shutdown_report(Err(Some(32))), ShutdownReport::Failed);
    assert_eq!(shutdown_report(Err(None)), ShutdownReport::Failed);
}

#[test]
fn accepts_refuses_a_deadline_beyond_the_end_of_time() {
    let state = Keepalive {
        base_interval: 2_000,
        next_tick: at(i64::MAX - 1, 0),
        last_sequence: 0,
        last_successful: false,
        sender: 0u8,
    };
    assert!(state.accepts(&KeepaliveEvent::Idle(at(0, 0))));
    assert!(!state.accepts(&KeepaliveEvent::Idle(at(i64::MAX, 0))));
    assert!(state.accepts(&KeepaliveEvent::Disconnected));
    assert!(state.accepts(&KeepaliveEvent::Control(GatewayStatus::Interval(1))));
    assert!(state.accepts(&KeepaliveEvent::HeartbeatSent(Ok(()))));
}

#[test]
fn an_interval_beyond_the_signed_range_runs_backwards() {
    let (state, _) = control(started(40_000), GatewayStatus::Interval(u64::MAX));
    assert_eq!(state.base_interval, -1);
    let (state, action) = keepalive(state, KeepaliveEvent::Idle(at(1_040, 0)));
    assert!(matches!(action, KeepaliveAction::Heartbeat(_)));
    assert_eq!(state.next_tick, at(1_039, 999_000_000));
}

#[test]
fn the_poll_interval_is_a_tenth_of_a_second() {
    assert_eq!(POLL_INTERVAL_MS, 100);
}
