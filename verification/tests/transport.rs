use rpc_transport::error::Elapsed;
use rpc_transport::error::RpcError;
use rpc_transport::frame::Frame;
use rpc_transport::pump::run_pump;
use rpc_transport::pump::PumpEvent;
use rpc_transport::pump::PumpState;
use rpc_transport::queue::OutboundQueue;
use rpc_transport::timeout::forward_ready;
use rpc_transport::timeout::race_poll;
use rpc_transport::timeout::resolve_race;
use rpc_transport::timeout::RacePoll;
use rpc_transport::timeout::Timeout;

fn frame(bytes: &[u8]) -> Frame {
    Frame::new(bytes.to_vec())
}

#[test]
fn elapsed_new_and_message() {
    let e = Elapsed::new();
    assert_eq!(e, Elapsed);
    assert_eq!(e.message(), "request timed out");
}

#[test]
fn error_is_timeout() {
    let t: RpcError<u8> = RpcError::TimedOut(Elapsed);
    let o: RpcError<u8> = RpcError::Operation(3);
    assert!(t.is_timeout());
    assert!(!o.is_timeout());
    assert!(!RpcError::<u8>::ConnectFailed.is_timeout());
    assert!(!RpcError::<u8>::StreamFailed.is_timeout());
}

#[test]
fn timeout_new_holds_parts() {
    let t = Timeout::new("service", 100u64);
    let (inner, deadline) = t.into_parts();
    assert_eq!(inner, "service");
    assert_eq!(deadline, 100);
}

#[test]
fn readiness_failure_propagates() {
    assert_eq!(forward_ready::<u8>(Ok(())), Ok(()));
    assert_eq!(forward_ready::<u8>(Err(9)), Err(RpcError::Operation(9)));
}

#[test]
fn race_poll_operation_first() {
    // The operation is checked before the timer on every poll.
    let out = race_poll::<u32, u8>(Some(Ok(5)), false);
    assert_eq!(out, RacePoll::Resolved(Ok(5)));
    // Even with the timer fired in the same step, a ready operation wins.
    let tie = race_poll::<u32, u8>(Some(Ok(5)), true);
    assert_eq!(tie, RacePoll::Resolved(Ok(5)));
    let failed = race_poll::<u32, u8>(Some(Err(7)), true);
    assert_eq!(failed, RacePoll::Resolved(Err(RpcError::Operation(7))));
}

#[test]
fn race_poll_timer_only_when_pending() {
    let out = race_poll::<u32, u8>(None, true);
    assert_eq!(out, RacePoll::Resolved(Err(RpcError::TimedOut(Elapsed))));
    let pending = race_poll::<u32, u8>(None, false);
    assert_eq!(pending, RacePoll::Pending);
}

#[test]
fn race_resolves_with_operation_before_deadline() {
    // Ready well before the deadline, and within the smallest margin of it.
    assert_eq!(resolve_race::<u32, u8>(1, Ok(42), 100), Ok(42));
    assert_eq!(resolve_race::<u32, u8>(99, Ok(42), 100), Ok(42));
}

#[test]
fn race_tie_resolves_with_operation() {
    // The operation resolves in the same step the timer fires: never a timeout.
    assert_eq!(resolve_race::<u32, u8>(100, Ok(42), 100), Ok(42));
}

#[test]
fn race_times_out_slow_operation() {
    // An operation that takes 500 steps against a 100-step deadline: the
    // call resolves with a timeout at the deadline, not the operation.
    let out = resolve_race::<u32, u8>(500, Ok(42), 100);
    assert_eq!(out, Err(RpcError::TimedOut(Elapsed)));
    assert!(out.unwrap_err().is_timeout());
}

#[test]
fn race_wraps_operation_failure() {
    let out = resolve_race::<u32, u8>(3, Err(8), 100);
    assert_eq!(out, Err(RpcError::Operation(8)));
}

#[test]
fn queue_is_fifo() {
    let mut q = OutboundQueue::new();
    assert!(q.submit(frame(b"a")).is_ok());
    assert!(q.submit(frame(b"b")).is_ok());
    assert!(q.submit(frame(b"c")).is_ok());
    assert_eq!(q.next_frame(), Some(frame(b"a")));
    assert_eq!(q.next_frame(), Some(frame(b"b")));
    assert_eq!(q.next_frame(), Some(frame(b"c")));
    assert_eq!(q.next_frame(), None);
}

#[test]
fn queue_drain_keeps_order() {
    let mut q = OutboundQueue::new();
    for b in [b"one".as_slice(), b"two", b"three"] {
        assert!(q.submit(frame(b)).is_ok());
    }
    let drained = q.drain();
    assert_eq!(drained, vec![frame(b"one"), frame(b"two"), frame(b"three")]);
    assert_eq!(q.next_frame(), None);
}

#[test]
fn dropping_last_handle_closes_queue() {
    let mut q = OutboundQueue::new();
    q.clone_handle();
    q.drop_handle();
    // One handle still lives: submissions are accepted.
    assert!(q.submit(frame(b"kept")).is_ok());
    q.drop_handle();
    // All handles dropped: the queue is closed, the frame comes back.
    assert_eq!(q.submit(frame(b"late")), Err(frame(b"late")));
    // What was buffered before closure still drains.
    assert_eq!(q.drain(), vec![frame(b"kept")]);
}

#[test]
fn pump_writes_submitted_frames_in_order() {
    let events = vec![
        PumpEvent::Submitted(frame(b"f1")),
        PumpEvent::Submitted(frame(b"f2")),
        PumpEvent::Submitted(frame(b"f3")),
    ];
    let (state, written, delivered) = run_pump(events);
    assert_eq!(written, vec![frame(b"f1"), frame(b"f2"), frame(b"f3")]);
    assert_eq!(delivered, vec![]);
    assert!(!state.is_terminated());
}

#[test]
fn pump_ignores_submissions_after_queue_close() {
    let events = vec![
        PumpEvent::Submitted(frame(b"early")),
        PumpEvent::QueueClosed,
        PumpEvent::Submitted(frame(b"late")),
    ];
    let (_, written, _) = run_pump(events);
    assert_eq!(written, vec![frame(b"early")]);
}

#[test]
fn pump_stops_inbound_at_first_error() {
    // Source yields f1, f2, then an error, then f3: the consumer sees
    // exactly [f1, f2]; f3 is never delivered, no error frame appears.
    let events = vec![
        PumpEvent::SourceFrame(frame(b"f1")),
        PumpEvent::SourceFrame(frame(b"f2")),
        PumpEvent::SourceError,
        PumpEvent::SourceFrame(frame(b"f3")),
    ];
    let (state, written, delivered) = run_pump(events);
    assert_eq!(delivered, vec![frame(b"f1"), frame(b"f2")]);
    assert_eq!(written, vec![]);
    assert!(!state.is_terminated());
}

#[test]
fn pump_terminates_on_queue_closure_alone() {
    // Dropping the last handle (queue closed and drained) ends the pump
    // without any source event; nothing arriving later is delivered.
    let events = vec![
        PumpEvent::Submitted(frame(b"bye")),
        PumpEvent::QueueClosed,
        PumpEvent::SourceFrame(frame(b"late")),
    ];
    let (state, written, delivered) = run_pump(events);
    assert_eq!(written, vec![frame(b"bye")]);
    assert_eq!(delivered, vec![]);
    assert!(state.is_terminated());
}

#[test]
fn pump_step_by_step() {
    let mut s = PumpState::start();
    assert!(!s.is_terminated());
    // The source ending closes only the inbound side: the pump keeps
    // draining outbound submissions.
    s.step(PumpEvent::SourceClosed);
    assert!(!s.is_terminated());
    // Queue closure ends the pump by itself.
    s.step(PumpEvent::QueueClosed);
    assert!(s.is_terminated());
}

#[test]
fn echo_round_trip_through_pump_model() {
    // An echoing peer: whatever the pump writes comes back on the source.
    let mut q = OutboundQueue::new();
    assert!(q.submit(frame(b"ping")).is_ok());
    let events: Vec<PumpEvent> = q.drain().into_iter().map(PumpEvent::Submitted).collect();
    let (_, written, _) = run_pump(events);
    let echoed: Vec<PumpEvent> = written.into_iter().map(PumpEvent::SourceFrame).collect();
    let (_, _, delivered) = run_pump(echoed);
    assert_eq!(delivered, vec![frame(b"ping")]);
}
