//! The duplex pump: the single background task that bridges the outbound
//! queue to the framed sink and the framed source to the inbound stream.
//!
//! The pump is modelled as a state machine over the events it observes,
//! in the order its single task observes them. Each event is either an
//! outbound one (a frame dequeued from the submission queue, or the
//! queue found closed and drained) or an inbound one (a frame read from
//! the source, a read error, or a clean close). The pump's reaction to
//! each event is fixed by [`pump_action`]:
//!
//! - outbound frames are written to the sink one at a time, in exactly
//!   the order they were dequeued;
//! - inbound frames are delivered to the consumer until the source
//!   yields its first error or closes; from then on the inbound side is
//!   permanently closed and nothing further is delivered — no error
//!   frame is synthesized;
//! - once the outbound queue is closed (every handle dropped) and
//!   drained, the pump's task is over: it drops the sink and the source,
//!   releasing the connection, without waiting for the source to end;
//! - the pump terminates once both directions are closed, and a closed
//!   direction never reopens.

use vstd::prelude::*;

use crate::frame::Frame;
use crate::frame::frames_view;

verus! {

/// One observation made by the pump task.
#[derive(Debug, PartialEq, Eq)]
pub enum PumpEvent {
    /// A frame was dequeued from the outbound submission queue.
    Submitted(Frame),
    /// The outbound queue is closed (every handle dropped) and drained:
    /// the pump ends with it, dropping the connection.
    QueueClosed,
    /// The source yielded one inbound frame.
    SourceFrame(Frame),
    /// The source yielded a read error.
    SourceError,
    /// The source closed cleanly.
    SourceClosed,
}

/// What the pump does in reaction to one event.
#[derive(Debug, PartialEq, Eq)]
pub enum PumpAction {
    /// Write this frame to the sink, before looking at the next event.
    WriteSink(Frame),
    /// Republish this frame to the consumer-visible inbound stream.
    Deliver(Frame),
    /// Do nothing.
    Ignore,
}

/// Which directions of the pump are still open.
#[derive(Debug, Clone, Copy, PartialEq, Eq, Structural)]
pub struct PumpState {
    /// The outbound direction still accepts dequeued frames.
    pub outbound_open: bool,
    /// The inbound direction still republishes source frames.
    pub inbound_open: bool,
}

/// The state transition the pump makes on one event.
pub open spec fn pump_next(s: PumpState, e: PumpEvent) -> PumpState {
    match e {
        PumpEvent::Submitted(_) => s,
        PumpEvent::QueueClosed => PumpState { outbound_open: false, inbound_open: false },
        PumpEvent::SourceFrame(_) => s,
        PumpEvent::SourceError => PumpState { inbound_open: false, ..s },
        PumpEvent::SourceClosed => PumpState { inbound_open: false, ..s },
    }
}

/// The action the pump takes on one event.
pub open spec fn pump_action(s: PumpState, e: PumpEvent) -> PumpAction {
    match e {
        PumpEvent::Submitted(f) => if s.outbound_open {
            PumpAction::WriteSink(f)
        } else {
            PumpAction::Ignore
        },
        PumpEvent::SourceFrame(f) => if s.inbound_open {
            PumpAction::Deliver(f)
        } else {
            PumpAction::Ignore
        },
        _ => PumpAction::Ignore,
    }
}

/// The state after the pump has observed a whole sequence of events.
pub open spec fn pump_run(s: PumpState, events: Seq<PumpEvent>) -> PumpState
    decreases events.len(),
{
    if events.len() == 0 {
        s
    } else {
        pump_run(pump_next(s, events[0]), events.drop_first())
    }
}

/// The frames the pump writes to the sink over a sequence of events, as
/// byte sequences, in write order.
pub open spec fn written_frames(s: PumpState, events: Seq<PumpEvent>) -> Seq<Seq<u8>>
    decreases events.len(),
{
    if events.len() == 0 {
        Seq::empty()
    } else {
        let rest = written_frames(pump_next(s, events[0]), events.drop_first());
        match pump_action(s, events[0]) {
            PumpAction::WriteSink(f) => seq![f@] + rest,
            _ => rest,
        }
    }
}

/// The frames the pump delivers to the inbound stream over a sequence of
/// events, as byte sequences, in delivery order.
pub open spec fn delivered_frames(s: PumpState, events: Seq<PumpEvent>) -> Seq<Seq<u8>>
    decreases events.len(),
{
    if events.len() == 0 {
        Seq::empty()
    } else {
        let rest = delivered_frames(pump_next(s, events[0]), events.drop_first());
        match pump_action(s, events[0]) {
            PumpAction::Deliver(f) => seq![f@] + rest,
            _ => rest,
        }
    }
}

impl PumpState {
    /// A freshly started pump: both directions open.
    pub open spec fn initial() -> PumpState {
        PumpState { outbound_open: true, inbound_open: true }
    }

    /// The pump's task ends once both directions are permanently
    /// closed. Observing queue closure closes both at once, so dropping
    /// the last channel handle (queue closed and drained) terminates the
    /// pump by itself.
    pub open spec fn terminated(self) -> bool {
        !self.outbound_open && !self.inbound_open
    }

    /// The state of a freshly started pump.
    pub fn start() -> (s: PumpState)
        ensures
            s == PumpState::initial(),
    {
        PumpState { outbound_open: true, inbound_open: true }
    }

    /// React to one event: update the direction flags and return the
    /// action to perform before looking at the next event.
    pub fn step(&mut self, event: PumpEvent) -> (action: PumpAction)
        ensures
            *final(self) == pump_next(*old(self), event),
            action == pump_action(*old(self), event),
    {
        match event {
            PumpEvent::Submitted(f) => {
                if self.outbound_open {
                    PumpAction::WriteSink(f)
                } else {
                    PumpAction::Ignore
                }
            }
            PumpEvent::QueueClosed => {
                self.outbound_open = false;
                self.inbound_open = false;
                PumpAction::Ignore
            }
            PumpEvent::SourceFrame(f) => {
                if self.inbound_open {
                    PumpAction::Deliver(f)
                } else {
                    PumpAction::Ignore
                }
            }
            PumpEvent::SourceError => {
                self.inbound_open = false;
                PumpAction::Ignore
            }
            PumpEvent::SourceClosed => {
                self.inbound_open = false;
                PumpAction::Ignore
            }
        }
    }

    /// True once the pump's task has ended.
    pub fn is_terminated(&self) -> (b: bool)
        ensures
            b == self.terminated(),
    {
        !self.outbound_open && !self.inbound_open
    }
}

/// Run a freshly started pump over a whole sequence of events: returns
/// the final state, the frames written to the sink, and the frames
/// delivered to the inbound stream, each in order.
pub fn run_pump(events: Vec<PumpEvent>) -> (out: (PumpState, Vec<Frame>, Vec<Frame>))
    ensures
        out.0 == pump_run(PumpState::initial(), events@),
        frames_view(out.1@) == written_frames(PumpState::initial(), events@),
        frames_view(out.2@) == delivered_frames(PumpState::initial(), events@),
{
    let mut state = PumpState::start();
    let mut written: Vec<Frame> = Vec::new();
    let mut delivered: Vec<Frame> = Vec::new();
    let mut rest = events;
    proof {
        assert(frames_view(written@) + written_frames(state, rest@) =~= written_frames(
            PumpState::initial(),
            events@,
        ));
        assert(frames_view(delivered@) + delivered_frames(state, rest@) =~= delivered_frames(
            PumpState::initial(),
            events@,
        ));
    }
    loop
        invariant
            pump_run(state, rest@) == pump_run(PumpState::initial(), events@),
            frames_view(written@) + written_frames(state, rest@) == written_frames(
                PumpState::initial(),
                events@,
            ),
            frames_view(delivered@) + delivered_frames(state, rest@) == delivered_frames(
                PumpState::initial(),
                events@,
            ),
        ensures
            rest@.len() == 0,
            state == pump_run(PumpState::initial(), events@),
            frames_view(written@) == written_frames(PumpState::initial(), events@),
            frames_view(delivered@) == delivered_frames(PumpState::initial(), events@),
        decreases rest@.len(),
    {
        if rest.len() == 0 {
            proof {
                assert(frames_view(written@) =~= written_frames(PumpState::initial(), events@));
                assert(frames_view(delivered@) =~= delivered_frames(
                    PumpState::initial(),
                    events@,
                ));
            }
            break;
        }
        let ghost pre_state = state;
        let ghost pre_rest = rest@;
        let ghost pre_written = written@;
        let ghost pre_delivered = delivered@;
        let event = rest.remove(0);
        proof {
            assert(rest@ =~= pre_rest.drop_first());
        }
        let action = state.step(event);
        match action {
            PumpAction::WriteSink(f) => {
                written.push(f);
                proof {
                    assert(frames_view(written@) =~= frames_view(pre_written) + seq![f@]);
                    assert(written_frames(pre_state, pre_rest) =~= seq![f@] + written_frames(
                        state,
                        rest@,
                    ));
                    assert(frames_view(written@) + written_frames(state, rest@)
                        =~= frames_view(pre_written) + written_frames(pre_state, pre_rest));
                }
            }
            PumpAction::Deliver(f) => {
                delivered.push(f);
                proof {
                    assert(frames_view(delivered@) =~= frames_view(pre_delivered) + seq![f@]);
                    assert(delivered_frames(pre_state, pre_rest) =~= seq![f@] + delivered_frames(
                        state,
                        rest@,
                    ));
                    assert(frames_view(delivered@) + delivered_frames(state, rest@)
                        =~= frames_view(pre_delivered) + delivered_frames(pre_state, pre_rest));
                }
            }
            PumpAction::Ignore => {}
        }
    }
    (state, written, delivered)
}

/// The frames dequeued from the submission queue before it closes, as
/// byte sequences, in submission order.
pub open spec fn submitted_until_close(events: Seq<PumpEvent>) -> Seq<Seq<u8>>
    decreases events.len(),
{
    if events.len() == 0 {
        Seq::empty()
    } else {
        match events[0] {
            PumpEvent::Submitted(f) => seq![f@] + submitted_until_close(events.drop_first()),
            PumpEvent::QueueClosed => Seq::empty(),
            _ => submitted_until_close(events.drop_first()),
        }
    }
}

/// The frames the source yields before the inbound side's first break —
/// a read error, a clean close, or the pump's own end on queue closure —
/// as byte sequences, in arrival order.
pub open spec fn source_until_break(events: Seq<PumpEvent>) -> Seq<Seq<u8>>
    decreases events.len(),
{
    if events.len() == 0 {
        Seq::empty()
    } else {
        match events[0] {
            PumpEvent::SourceFrame(f) => seq![f@] + source_until_break(events.drop_first()),
            PumpEvent::SourceError => Seq::empty(),
            PumpEvent::SourceClosed => Seq::empty(),
            PumpEvent::QueueClosed => Seq::empty(),
            _ => source_until_break(events.drop_first()),
        }
    }
}

/// A pump whose outbound direction is closed never writes to the sink
/// again.
pub proof fn lemma_closed_outbound_writes_nothing(s: PumpState, events: Seq<PumpEvent>)
    requires
        !s.outbound_open,
    ensures
        written_frames(s, events) == Seq::<Seq<u8>>::empty(),
    decreases events.len(),
{
    if events.len() > 0 {
        lemma_closed_outbound_writes_nothing(pump_next(s, events[0]), events.drop_first());
    }
}

/// A pump whose inbound direction is closed never delivers a frame
/// again.
pub proof fn lemma_closed_inbound_delivers_nothing(s: PumpState, events: Seq<PumpEvent>)
    requires
        !s.inbound_open,
    ensures
        delivered_frames(s, events) == Seq::<Seq<u8>>::empty(),
    decreases events.len(),
{
    if events.len() > 0 {
        lemma_closed_inbound_delivers_nothing(pump_next(s, events[0]), events.drop_first());
    }
}

/// Outbound order: over any sequence of events, the frames a pump with
/// an open outbound direction writes to the sink are exactly the frames
/// dequeued from the submission queue before it closed, in submission
/// order — each written once, none skipped, none reordered. Re-decoding
/// the sink bytes with the codec therefore yields exactly those frames,
/// by the codec's one-write-one-frame guarantee.
pub proof fn lemma_outbound_fifo(s: PumpState, events: Seq<PumpEvent>)
    requires
        s.outbound_open,
    ensures
        written_frames(s, events) == submitted_until_close(events),
    decreases events.len(),
{
    if events.len() > 0 {
        match events[0] {
            PumpEvent::QueueClosed => {
                lemma_closed_outbound_writes_nothing(pump_next(s, events[0]), events.drop_first());
            }
            _ => {
                lemma_outbound_fifo(pump_next(s, events[0]), events.drop_first());
            }
        }
    }
}

/// Fail-fast inbound: over any sequence of events, the frames a pump
/// with an open inbound direction delivers are exactly the source frames
/// that arrived before the first read error, clean close or queue
/// closure; everything after that break is never delivered, and no error
/// frame is synthesized.
pub proof fn lemma_inbound_fail_fast(s: PumpState, events: Seq<PumpEvent>)
    requires
        s.inbound_open,
    ensures
        delivered_frames(s, events) == source_until_break(events),
    decreases events.len(),
{
    if events.len() > 0 {
        match events[0] {
            PumpEvent::SourceError => {
                lemma_closed_inbound_delivers_nothing(pump_next(s, events[0]), events.drop_first());
            }
            PumpEvent::SourceClosed => {
                lemma_closed_inbound_delivers_nothing(pump_next(s, events[0]), events.drop_first());
            }
            PumpEvent::QueueClosed => {
                lemma_closed_inbound_delivers_nothing(pump_next(s, events[0]), events.drop_first());
            }
            _ => {
                lemma_inbound_fail_fast(pump_next(s, events[0]), events.drop_first());
            }
        }
    }
}

/// A closed direction never reopens: there is no restart.
pub proof fn lemma_closure_is_permanent(s: PumpState, events: Seq<PumpEvent>)
    ensures
        !s.outbound_open ==> !pump_run(s, events).outbound_open,
        !s.inbound_open ==> !pump_run(s, events).inbound_open,
    decreases events.len(),
{
    if events.len() > 0 {
        lemma_closure_is_permanent(pump_next(s, events[0]), events.drop_first());
    }
}

/// Once the pump observes the source ending, its inbound direction is
/// closed for good.
pub proof fn lemma_source_end_observed(s: PumpState, events: Seq<PumpEvent>)
    requires
        exists|i: int|
            0 <= i < events.len() && (events[i] is SourceError || events[i] is SourceClosed),
    ensures
        !pump_run(s, events).inbound_open,
    decreases events.len(),
{
    let i = choose|i: int|
        0 <= i < events.len() && (events[i] is SourceError || events[i] is SourceClosed);
    if i == 0 {
        lemma_closure_is_permanent(pump_next(s, events[0]), events.drop_first());
    } else {
        assert(events.drop_first()[i - 1] is SourceError || (events.drop_first()[
            i - 1
        ]) is SourceClosed);
        lemma_source_end_observed(pump_next(s, events[0]), events.drop_first());
    }
}

/// Termination on handle drop: once the pump observes that the outbound
/// queue is closed (every handle dropped) and drained, its task is over
/// — without waiting for the source to end. The sink and the source are
/// dropped with the task, releasing the connection. There is no restart;
/// a terminated pump is replaced only by a fresh connection.
pub proof fn lemma_pump_terminates(s: PumpState, events: Seq<PumpEvent>)
    requires
        exists|i: int| 0 <= i < events.len() && events[i] is QueueClosed,
    ensures
        pump_run(s, events).terminated(),
    decreases events.len(),
{
    let i = choose|i: int| 0 <= i < events.len() && events[i] is QueueClosed;
    if i == 0 {
        lemma_closure_is_permanent(pump_next(s, events[0]), events.drop_first());
    } else {
        assert(events.drop_first()[i - 1] is QueueClosed);
        lemma_pump_terminates(pump_next(s, events[0]), events.drop_first());
    }
}

} // verus!
