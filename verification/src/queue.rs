//! The outbound submission queue that channel handles write into and the
//! duplex pump drains.
//!
//! A channel handle is a cheap reference to this queue; `handles` counts
//! the live handles. Submissions from any handle are appended in arrival
//! order, and the pump dequeues strictly from the front, so frames reach
//! the sink in the exact order they were submitted. When the last handle
//! is dropped the queue is closed: no further frame is accepted, but the
//! frames already buffered remain to be drained.

use vstd::prelude::*;

use crate::frame::Frame;
use crate::frame::frames_view;

verus! {

/// The outbound frame queue, together with its live-handle count.
#[derive(Debug)]
pub struct OutboundQueue {
    /// The buffered frames, front first.
    pub frames: Vec<Frame>,
    /// How many channel handles can still submit to this queue.
    pub handles: u64,
}

impl View for OutboundQueue {
    type V = Seq<Seq<u8>>;

    open spec fn view(&self) -> Seq<Seq<u8>> {
        frames_view(self.frames@)
    }
}

impl OutboundQueue {
    /// A queue is closed once every handle has been dropped.
    pub open spec fn closed(self) -> bool {
        self.handles == 0
    }

    /// A fresh, empty queue with one live handle.
    pub fn new() -> (q: OutboundQueue)
        ensures
            q@ == Seq::<Seq<u8>>::empty(),
            q.handles == 1,
    {
        let q = OutboundQueue { frames: Vec::new(), handles: 1 };
        proof {
            assert(q@ =~= Seq::<Seq<u8>>::empty());
        }
        q
    }

    /// Clone a channel handle: one more producer may submit.
    pub fn clone_handle(&mut self)
        requires
            old(self).handles < u64::MAX,
        ensures
            final(self).handles == old(self).handles + 1,
            final(self).frames == old(self).frames,
    {
        self.handles = self.handles + 1;
    }

    /// Drop a channel handle; dropping the last one closes the queue.
    pub fn drop_handle(&mut self)
        requires
            old(self).handles > 0,
        ensures
            final(self).handles == old(self).handles - 1,
            final(self).frames == old(self).frames,
            final(self).closed() <==> old(self).handles == 1,
    {
        self.handles = self.handles - 1;
    }

    /// Submit one frame through a handle.
    ///
    /// Acknowledges enqueue success only, not delivery. On a closed queue
    /// the frame is handed back unchanged and nothing else happens.
    pub fn submit(&mut self, frame: Frame) -> (r: Result<(), Frame>)
        ensures
            !old(self).closed() ==> {
                &&& r is Ok
                &&& final(self).frames@ == old(self).frames@.push(frame)
                &&& final(self)@ == old(self)@.push(frame@)
                &&& final(self).handles == old(self).handles
            },
            old(self).closed() ==> {
                &&& r == Result::<(), Frame>::Err(frame)
                &&& *final(self) == *old(self)
            },
    {
        if self.handles == 0 {
            Err(frame)
        } else {
            let ghost before = self.frames@;
            self.frames.push(frame);
            proof {
                assert(frames_view(self.frames@) =~= frames_view(before).push(frame@));
            }
            Ok(())
        }
    }

    /// Dequeue the frame at the front, if any: the pump's next write.
    pub fn next_frame(&mut self) -> (r: Option<Frame>)
        ensures
            old(self).frames@.len() == 0 ==> {
                &&& r is None
                &&& *final(self) == *old(self)
            },
            old(self).frames@.len() > 0 ==> {
                &&& r == Option::Some(old(self).frames@[0])
                &&& final(self).frames@ == old(self).frames@.drop_first()
                &&& final(self).handles == old(self).handles
            },
    {
        if self.frames.len() == 0 {
            None
        } else {
            let f = self.frames.remove(0);
            proof {
                assert(self.frames@ =~= old(self).frames@.drop_first());
            }
            Some(f)
        }
    }

    /// Drain the queue completely, front first: exactly the buffered
    /// frames come out, in submission order.
    pub fn drain(&mut self) -> (out: Vec<Frame>)
        ensures
            out@ == old(self).frames@,
            final(self).frames@ == Seq::<Frame>::empty(),
            final(self).handles == old(self).handles,
    {
        let mut out: Vec<Frame> = Vec::new();
        loop
            invariant
                out@ + self.frames@ == old(self).frames@,
                self.handles == old(self).handles,
            ensures
                out@ == old(self).frames@,
                self.frames@.len() == 0,
                self.handles == old(self).handles,
            decreases self.frames@.len(),
        {
            match self.next_frame() {
                Some(f) => {
                    out.push(f);
                    proof {
                        assert(out@ + self.frames@ =~= old(self).frames@);
                    }
                }
                None => {
                    proof {
                        assert(out@ =~= old(self).frames@);
                    }
                    break;
                }
            }
        }
        out
    }
}

} // verus!
