//! Command buffer lifecycle.
//!
//! A [`Buffer`] wraps a native command buffer handle together with the
//! lifecycle state it is in and the capability and level it was acquired
//! with.  Every state-dependent operation demands the legal predecessor
//! state, so an illegal transition cannot be written against this module.

use vstd::prelude::*;

use crate::capability::CapabilityFlags;

verus! {

/// Lifecycle state of a command buffer.
#[derive(Clone, Copy, Debug, PartialEq, Eq, Structural)]
pub enum BufferState {
    /// Just acquired, no commands recorded.
    Initial,
    /// Commands are being appended.
    Recording,
    /// Recording finished, ready to submit.
    Executable,
    /// Handed to a queue; the device may still be executing it.
    Pending,
    /// The device has signaled completion.
    Complete,
}

/// Level a command buffer is acquired at.
#[derive(Clone, Copy, Debug, PartialEq, Eq, Structural)]
pub enum Level {
    Primary,
    Secondary,
}

/// A native command buffer with its lifecycle state and acquisition tags.
#[derive(Clone, Copy, Debug)]
pub struct Buffer {
    raw: u64,
    capability: CapabilityFlags,
    level: Level,
    state: BufferState,
}

impl Buffer {
    /// Spec-level native handle.
    pub closed spec fn spec_raw(&self) -> u64 {
        self.raw
    }

    /// Spec-level lifecycle state.
    pub closed spec fn spec_state(&self) -> BufferState {
        self.state
    }

    /// Spec-level capability the buffer was acquired with.
    pub closed spec fn spec_capability(&self) -> CapabilityFlags {
        self.capability
    }

    /// Spec-level acquisition level.
    pub closed spec fn spec_level(&self) -> Level {
        self.level
    }

    /// Wrap a freshly acquired native buffer in the `Initial` state.
    pub(crate) fn new(raw: u64, capability: CapabilityFlags, level: Level) -> (r: Self)
        ensures
            r.spec_raw() == raw,
            r.spec_capability() == capability,
            r.spec_level() == level,
            r.spec_state() == BufferState::Initial,
    {
        Buffer { raw, capability, level, state: BufferState::Initial }
    }

    /// Get the native handle.
    pub fn raw(&self) -> (r: u64)
        ensures
            r == self.spec_raw(),
    {
        self.raw
    }

    /// Get the lifecycle state.
    pub fn state(&self) -> (r: BufferState)
        ensures
            r == self.spec_state(),
    {
        self.state
    }

    /// Get the capability the buffer was acquired with.
    pub fn capability(&self) -> (r: CapabilityFlags)
        ensures
            r == self.spec_capability(),
    {
        self.capability
    }

    /// Get the acquisition level.
    pub fn level(&self) -> (r: Level)
        ensures
            r == self.spec_level(),
    {
        self.level
    }

    /// Begin recording commands.
    pub fn begin(&mut self)
        requires
            old(self).spec_state() == BufferState::Initial,
        ensures
            final(self).spec_state() == BufferState::Recording,
            final(self).spec_raw() == old(self).spec_raw(),
            final(self).spec_capability() == old(self).spec_capability(),
            final(self).spec_level() == old(self).spec_level(),
    {
        self.state = BufferState::Recording;
    }

    /// Finish recording; the buffer becomes ready to submit.
    pub fn finish(&mut self)
        requires
            old(self).spec_state() == BufferState::Recording,
        ensures
            final(self).spec_state() == BufferState::Executable,
            final(self).spec_raw() == old(self).spec_raw(),
            final(self).spec_capability() == old(self).spec_capability(),
            final(self).spec_level() == old(self).spec_level(),
    {
        self.state = BufferState::Executable;
    }

    /// Mark the buffer as handed to a queue.
    pub fn submit(&mut self)
        requires
            old(self).spec_state() == BufferState::Executable,
        ensures
            final(self).spec_state() == BufferState::Pending,
            final(self).spec_raw() == old(self).spec_raw(),
            final(self).spec_capability() == old(self).spec_capability(),
            final(self).spec_level() == old(self).spec_level(),
    {
        self.state = BufferState::Pending;
    }

    /// Mark the buffer complete.  The caller asserts, by making this call,
    /// that the device has signaled completion of the submission holding it.
    pub fn mark_complete(&mut self)
        requires
            old(self).spec_state() == BufferState::Pending,
        ensures
            final(self).spec_state() == BufferState::Complete,
            final(self).spec_raw() == old(self).spec_raw(),
            final(self).spec_capability() == old(self).spec_capability(),
            final(self).spec_level() == old(self).spec_level(),
    {
        self.state = BufferState::Complete;
    }

    /// States in which a buffer may be returned or freed: never recorded,
    /// or signaled complete.
    pub open spec fn spec_droppable(&self) -> bool {
        self.spec_state() == BufferState::Initial || self.spec_state() == BufferState::Complete
    }

    /// Whether the buffer may be returned or freed.
    pub fn is_droppable(&self) -> (r: bool)
        ensures
            r == self.spec_droppable(),
    {
        match self.state {
            BufferState::Initial => true,
            BufferState::Complete => true,
            _ => false,
        }
    }
}

} // verus!
