//! Frame tracking: the indices and tokens the frame-binding protocol uses.
//!
//! The caller drives the protocol: bind a pool to a frame, record and
//! submit, wait for the device's completion signal, turn it into a
//! [`CompleteFrame`] token, and only then reset the pool.

use vstd::prelude::*;

verus! {

/// Index of a rendered frame.
pub type FrameIndex = u64;

/// A frame being rendered.
#[derive(Clone, Copy, Debug, PartialEq, Eq, Structural)]
pub struct Frame {
    index: FrameIndex,
}

impl Frame {
    /// Spec-level index of this frame.
    pub closed spec fn spec_index(&self) -> FrameIndex {
        self.index
    }

    /// Frame with the given index.
    pub fn with_index(index: FrameIndex) -> (r: Self)
        ensures
            r.spec_index() == index,
    {
        Frame { index }
    }

    /// Get the frame's index.
    pub fn index(&self) -> (r: FrameIndex)
        ensures
            r == self.spec_index(),
    {
        self.index
    }

    /// Turn this frame into a completion token.  The caller asserts, by
    /// making this call, that the device has signaled completion of all
    /// work submitted for this frame.
    pub fn complete(self) -> (r: CompleteFrame)
        ensures
            r.spec_index() == self.spec_index(),
    {
        CompleteFrame { index: self.index }
    }
}

/// Token carrying the index of a frame whose work the device has
/// signaled complete.
#[derive(Clone, Copy, Debug, PartialEq, Eq, Structural)]
pub struct CompleteFrame {
    index: FrameIndex,
}

impl CompleteFrame {
    /// Spec-level index of the completed frame.
    pub closed spec fn spec_index(&self) -> FrameIndex {
        self.index
    }

    /// Get the completed frame's index.
    pub fn index(&self) -> (r: FrameIndex)
        ensures
            r == self.spec_index(),
    {
        self.index
    }
}

} // verus!
