//! The bounded frame buffer: a ring that keeps the latest frames.
//!
//! `push` evicts the oldest frame on overflow, so the buffer never holds
//! more than its configured capacity, and `get_latest` always returns the
//! most recently pushed frame.

use crate::frame::DecodedFrame;
use vstd::prelude::*;

verus! {

/// A bounded ring of decoded frames.
pub struct FrameBuffer {
    frames: Vec<DecodedFrame>,
    max_size: usize,
}

impl View for FrameBuffer {
    type V = Seq<DecodedFrame>;

    /// The held frames, oldest first.
    closed spec fn view(&self) -> Seq<DecodedFrame> {
        self.frames@
    }
}

impl FrameBuffer {
    /// The configured capacity.
    pub closed spec fn cap(self) -> int {
        self.max_size as int
    }

    /// The buffer holds at least one slot and never more frames than its
    /// capacity.
    pub open spec fn wf(self) -> bool {
        1 <= self.cap() && self@.len() <= self.cap()
    }

    /// Creates an empty buffer that will hold at most `max_size` frames.
    pub fn new(max_size: usize) -> (r: FrameBuffer)
        requires
            max_size >= 1,
        ensures
            r@ == Seq::<DecodedFrame>::empty(),
            r.cap() == max_size,
            r.wf(),
    {
        let r = FrameBuffer { frames: Vec::new(), max_size };
        assert(r@ =~= Seq::<DecodedFrame>::empty());
        r
    }

    /// Appends a frame, evicting the oldest when the buffer is full. The
    /// buffer stays within capacity and the new frame becomes the latest.
    pub fn push(&mut self, frame: DecodedFrame)
        requires
            old(self).wf(),
        ensures
            final(self).wf(),
            final(self).cap() == old(self).cap(),
            old(self)@.len() < old(self).cap() ==> final(self)@ == old(self)@.push(frame),
            old(self)@.len() == old(self).cap() ==> final(self)@ == old(self)@.remove(0).push(
                frame,
            ),
            final(self)@.len() <= old(self).cap(),
            final(self)@.len() >= 1,
            final(self)@.last() == frame,
    {
        if self.frames.len() >= self.max_size {
            self.frames.remove(0);
        }
        self.frames.push(frame);
    }

    /// The most recently pushed frame, if any, left in place.
    pub fn get_latest(&self) -> (r: Option<&DecodedFrame>)
        ensures
            self@.len() == 0 ==> r is None,
            self@.len() > 0 ==> (r matches Some(f) && *f == self@.last()),
    {
        if self.frames.len() == 0 {
            None
        } else {
            Some(&self.frames[self.frames.len() - 1])
        }
    }

    /// The frame at `index`, oldest first, if in range.
    pub fn get(&self, index: usize) -> (r: Option<&DecodedFrame>)
        ensures
            index < self@.len() ==> (r matches Some(f) && *f == self@[index as int]),
            index >= self@.len() ==> r is None,
    {
        if index < self.frames.len() {
            Some(&self.frames[index])
        } else {
            None
        }
    }

    /// Empties the buffer; its capacity is kept.
    pub fn clear(&mut self)
        ensures
            final(self)@ == Seq::<DecodedFrame>::empty(),
            final(self).cap() == old(self).cap(),
    {
        self.frames.clear();
        assert(self@ =~= Seq::<DecodedFrame>::empty());
    }

    /// How many frames are held.
    pub fn len(&self) -> (r: usize)
        ensures
            r == self@.len(),
    {
        self.frames.len()
    }

    /// Whether no frame is held.
    pub fn is_empty(&self) -> (r: bool)
        ensures
            r == (self@.len() == 0),
    {
        self.frames.is_empty()
    }
}

/// Capacity bound: however a buffer was filled, a well-formed buffer holds
/// at most its capacity, and after any `push` the pushed frame is the
/// latest. Both facts restate `push`'s contract for a single step; since
/// every operation preserves well-formedness, they hold after any sequence
/// of pushes.
pub proof fn lemma_frame_buffer_bound(buf: FrameBuffer)
    requires
        buf.wf(),
    ensures
        buf@.len() <= buf.cap(),
{
}

} // verus!
