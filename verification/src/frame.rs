//! A frame: one decoded message unit exchanged over the transport.

use vstd::prelude::*;

verus! {

/// An opaque byte buffer holding exactly one decoded message unit.
///
/// This core assumes no internal structure: the codec that cuts the byte
/// stream into frames is an external collaborator.
#[derive(Debug, PartialEq, Eq)]
pub struct Frame {
    pub bytes: Vec<u8>,
}

impl View for Frame {
    type V = Seq<u8>;

    open spec fn view(&self) -> Seq<u8> {
        self.bytes@
    }
}

impl Frame {
    /// Wrap a byte buffer as one message unit.
    pub fn new(bytes: Vec<u8>) -> (f: Frame)
        ensures
            f@ == bytes@,
    {
        Frame { bytes }
    }

    /// The number of bytes in this frame.
    pub fn len(&self) -> (n: usize)
        ensures
            n == self@.len(),
    {
        self.bytes.len()
    }
}

/// The views of a sequence of frames, in order.
pub open spec fn frames_view(frames: Seq<Frame>) -> Seq<Seq<u8>> {
    frames.map_values(|f: Frame| f@)
}

} // verus!
