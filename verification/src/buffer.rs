//! Scanline buffers and the rasterizer's declaration of filled pixels.
//!
//! A [`ScanBuffer`] holds one line's worth of wire-format pixels together
//! with the valid range a rasterizer declared: the leading `valid_len` bytes
//! are meaningful, the rest are treated as blank by the transfer engine.
//! A rasterizer may declare any range it likes; the engine clamps the
//! declaration to the buffer's physical bounds at the handoff, so an armed
//! buffer can never expose out-of-bounds pixels.

use vstd::prelude::*;

verus! {

/// One scanline's pixel storage plus the declared valid range.
pub struct ScanBuffer {
    /// Wire-format pixel bytes, one per active-video tick.
    pub pixels: Vec<u8>,
    /// How many leading bytes of `pixels` the rasterizer filled. Only a
    /// value at most `pixels.len()` is meaningful; the engine clamps a
    /// larger declaration at the handoff.
    pub valid_len: usize,
}

impl ScanBuffer {
    /// A buffer the transfer engine may stream: the declared valid range
    /// lies within the physical pixel storage.
    pub open spec fn wf(self) -> bool {
        self.valid_len <= self.pixels.len()
    }

    /// Builds a blank buffer of `width` pixels with an empty valid range.
    pub fn new(width: usize) -> (b: ScanBuffer)
        ensures
            b.pixels.len() == width,
            forall|i: int| 0 <= i < width ==> b.pixels@[i] == 0u8,
            b.valid_len == 0,
            b.wf(),
    {
        ScanBuffer { pixels: vec![0u8; width], valid_len: 0 }
    }

    /// Records how many leading pixels the rasterizer filled, exactly as
    /// declared. The declaration is taken at face value here; the engine
    /// clamps it to the physical bounds when the buffer is handed over.
    pub fn declare_valid(&mut self, len: usize)
        ensures
            final(self).pixels == old(self).pixels,
            final(self).valid_len == len,
    {
        self.valid_len = len;
    }

    /// The declared valid range clamped to the physical bounds: what the
    /// transfer engine will actually stream.
    pub open spec fn clamped_valid_spec(self) -> int {
        if self.valid_len <= self.pixels.len() {
            self.valid_len as int
        } else {
            self.pixels.len() as int
        }
    }

    /// Clamps the declared valid range to the buffer's physical bounds.
    pub fn clamp_valid(&mut self)
        ensures
            final(self).pixels == old(self).pixels,
            final(self).valid_len == old(self).clamped_valid_spec(),
            final(self).wf(),
    {
        if self.valid_len > self.pixels.len() {
            self.valid_len = self.pixels.len();
        }
    }
}

/// Law: whatever a rasterizer declared, the clamped valid range of a buffer
/// is a subset of the buffer's physical bounds.
pub proof fn lemma_clamped_range_in_bounds(b: ScanBuffer)
    ensures
        0 <= b.clamped_valid_spec() <= b.pixels.len(),
{
}

} // verus!
