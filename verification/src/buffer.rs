//! The fill level of a staging buffer for bytes that arrive from USB.

use vstd::prelude::*;

verus! {

/// The write index of a staging buffer of `CAPACITY` bytes.
pub struct UsbBufferIndex<const CAPACITY: usize> {
    idx: usize,
}

impl<const CAPACITY: usize> View for UsbBufferIndex<CAPACITY> {
    type V = usize;

    /// The index.
    closed spec fn view(&self) -> usize {
        self.idx
    }
}

impl<const CAPACITY: usize> UsbBufferIndex<CAPACITY> {
    /// Whether an index that has reached `idx` has run past what a buffer
    /// of `cap` bytes can take: beyond the capacity after the last chunk of
    /// a message, at or beyond it after any other chunk.
    pub open spec fn overrun(cap: usize, idx: int, is_end: bool) -> bool {
        if is_end {
            idx > cap
        } else {
            idx >= cap
        }
    }

    /// An index at the start of the buffer.
    pub fn new() -> (r: Self)
        ensures
            r@ == 0,
    {
        Self { idx: 0 }
    }

    /// Goes back to the start of the buffer.
    pub fn reset(&mut self)
        ensures
            final(self)@ == 0,
    {
        self.idx = 0;
    }

    /// Moves the index on by `nbytes`. Returns `Ok` exactly when the index
    /// has then run past the buffer, and `Err` while it has not.
    pub fn shift(&mut self, nbytes: usize, is_end: bool) -> (r: Result<(), ()>)
        requires
            old(self)@ + nbytes <= usize::MAX,
        ensures
            final(self)@ == old(self)@ + nbytes,
            r is Ok <==> Self::overrun(CAPACITY, old(self)@ + nbytes, is_end),
    {
        self.idx += nbytes;
        match (is_end && (self.idx > CAPACITY)) || (!is_end && (self.idx >= CAPACITY)) {
            true => Ok(()),
            false => Err(()),
        }
    }

    /// The index.
    pub fn value(&self) -> (r: usize)
        ensures
            r == self@,
    {
        self.idx
    }
}

} // verus!
