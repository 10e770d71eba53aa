//! Command pool hierarchy: [`Pool`], [`OwningPool`], [`FramePool`].
//!
//! A `Pool` owns one native command pool handle; an `OwningPool` adds a
//! reusable buffer sequence with a ring cursor; a `FramePool` adds the
//! single-frame binding discipline that ties buffer recycling to a frame's
//! completion token.  Every pool carries a liveness marker and must be
//! explicitly disposed rather than silently dropped.

use vstd::prelude::*;

use crate::buffer::{Buffer, Level};
use crate::capability::{Capability, CapabilityFlags, FamilyId};
use crate::device::Device;
use crate::frame::{CompleteFrame, Frame, FrameIndex};

verus! {

/// Declares the outside liveness marker: a unit value that complains when
/// dropped and is silenced only by `relevant::Relevant::dispose`.
#[verifier::external_type_specification]
#[verifier::external_body]
pub struct ExRelevant(relevant::Relevant);

/// Relies on relevant::Relevant being a unit struct: constructs the marker.
#[verifier::external_body]
fn new_relevant() -> relevant::Relevant {
    relevant::Relevant
}

/// Relies on relevant::Relevant::dispose: consumes the marker without
/// triggering its drop complaint.
pub assume_specification[ relevant::Relevant::dispose ](marker: relevant::Relevant);

/// Non-duplicable ownership wrapper over one native command pool handle,
/// with its capability, reset-policy tag and owning queue family.
#[derive(Debug)]
pub struct Pool {
    raw: u64,
    capability: CapabilityFlags,
    typed: Option<Capability>,
    individual_reset: bool,
    family: FamilyId,
    relevant: relevant::Relevant,
}

impl Pool {
    /// Spec-level native pool handle.
    pub closed spec fn spec_raw(&self) -> u64 {
        self.raw
    }

    /// Spec-level capability flags of the owning queue family.
    pub closed spec fn spec_capability(&self) -> CapabilityFlags {
        self.capability
    }

    /// Spec-level narrowed capability, if the pool has been cast.
    pub closed spec fn spec_typed(&self) -> Option<Capability> {
        self.typed
    }

    /// Spec-level reset-policy tag: whether buffers are individually
    /// resettable.
    pub closed spec fn spec_individual_reset(&self) -> bool {
        self.individual_reset
    }

    /// Spec-level owning queue family.
    pub closed spec fn spec_family(&self) -> FamilyId {
        self.family
    }

    /// Wrap a native pool handle of queue family `family` whose runtime
    /// capability flags are `capability`.
    pub fn from_raw(raw: u64, capability: CapabilityFlags, individual_reset: bool, family: FamilyId) -> (r: Self)
        ensures
            r.spec_raw() == raw,
            r.spec_capability() == capability,
            r.spec_typed() is None,
            r.spec_individual_reset() == individual_reset,
            r.spec_family() == family,
    {
        Pool {
            raw,
            capability,
            typed: None,
            individual_reset,
            family,
            relevant: new_relevant(),
        }
    }

    /// Get the native pool handle.
    pub fn raw(&self) -> (r: u64)
        ensures
            r == self.spec_raw(),
    {
        self.raw
    }

    /// Get the capability flags.
    pub fn capability(&self) -> (r: CapabilityFlags)
        ensures
            r == self.spec_capability(),
    {
        self.capability
    }

    /// Get the owning queue family.
    pub fn family(&self) -> (r: FamilyId)
        ensures
            r == self.spec_family(),
    {
        self.family
    }

    /// Reset all buffers of this pool at once on the device.  The caller
    /// must know that no buffer of this pool is still executing.
    pub fn reset<D: Device>(&mut self, device: &mut D)
        ensures
            *final(self) == *old(self),
    {
        device.reset_pool(self.raw);
    }

    /// Try to narrow the pool to one capability.  On success the retyped
    /// pool is returned; on failure the original pool comes back fully
    /// intact — a negative result, not an error.
    pub fn cast_capability(self, capability: Capability) -> (r: Result<Pool, Pool>)
        requires
            self.spec_typed() is None,
        ensures
            self.spec_capability().bits & capability.spec_flags() == capability.spec_flags()
                ==> (r matches Ok(p) && p.spec_raw() == self.spec_raw() && p.spec_capability()
                == self.spec_capability() && p.spec_typed() == Some(capability)
                && p.spec_individual_reset() == self.spec_individual_reset() && p.spec_family()
                == self.spec_family()),
            self.spec_capability().bits & capability.spec_flags() != capability.spec_flags()
                ==> (r matches Err(p) && p == self),
    {
        if capability.supported_by(self.capability) {
            let Pool { raw, capability: flags, typed: _, individual_reset, family, relevant } =
                self;
            Ok(
                Pool {
                    raw,
                    capability: flags,
                    typed: Some(capability),
                    individual_reset,
                    family,
                    relevant,
                },
            )
        } else {
            Err(self)
        }
    }

    /// Allocate `count` fresh native buffers from this pool, each wrapped
    /// in the `Initial` state with this pool's capability.
    pub(crate) fn allocate_buffers<D: Device>(&mut self, device: &mut D, level: Level, count: usize) -> (r: Vec<Buffer>)
        ensures
            *final(self) == *old(self),
            r@.len() == count,
            forall|i: int|
                0 <= i < r@.len() ==> (#[trigger] r@[i]).spec_state()
                    == crate::buffer::BufferState::Initial && r@[i].spec_capability() == old(self).spec_capability() && r@[i].spec_level() == level,
    {
        let mut buffers: Vec<Buffer> = Vec::new();
        let mut i: usize = 0;
        while i < count
            invariant
                0 <= i <= count,
                *self == *old(self),
                buffers@.len() == i,
                forall|j: int|
                    0 <= j < buffers@.len() ==> (#[trigger] buffers@[j]).spec_state()
                        == crate::buffer::BufferState::Initial && buffers@[j].spec_capability()
                        == old(self).spec_capability() && buffers@[j].spec_level() == level,
            decreases count - i,
        {
            let raw = device.allocate_buffer(self.raw);
            buffers.push(Buffer::new(raw, self.capability, level));
            i = i + 1;
        }
        buffers
    }

    /// Free buffers back to the native pool.  Every buffer must be in a
    /// droppable state.
    pub(crate) fn free_buffers<D: Device>(&mut self, device: &mut D, buffers: Vec<Buffer>)
        requires
            forall|i: int| 0 <= i < buffers@.len() ==> (#[trigger] buffers@[i]).spec_droppable(),
        ensures
            *final(self) == *old(self),
    {
        let mut i: usize = 0;
        while i < buffers.len()
            invariant
                *self == *old(self),
            decreases buffers.len() - i,
        {
            device.free_buffer(self.raw, buffers[i].raw());
            i = i + 1;
        }
    }

    /// Explicit disposal step silencing the liveness marker.  The caller
    /// must have freed or reset everything this pool produced.
    pub fn dispose(self) {
        let Pool { raw: _, capability: _, typed: _, individual_reset: _, family: _, relevant } =
            self;
        relevant.dispose();
    }
}

/// Command pool that owns its allocated buffers and lends them out one by
/// one through a ring cursor; all of them are recycled together by a
/// pool-wide reset.
#[derive(Debug)]
pub struct OwningPool {
    inner: Pool,
    buffers: Vec<u64>,
    next: usize,
}

impl OwningPool {
    /// Spec-level underlying pool.
    pub closed spec fn spec_inner(&self) -> Pool {
        self.inner
    }

    /// Spec-level owned native buffer handles.
    pub closed spec fn spec_buffers(&self) -> Seq<u64> {
        self.buffers@
    }

    /// Spec-level ring cursor.
    pub closed spec fn spec_next(&self) -> int {
        self.next as int
    }

    /// The cursor never runs past the buffer sequence.
    pub open spec fn wf(&self) -> bool {
        0 <= self.spec_next() <= self.spec_buffers().len()
    }

    /// Wrap a pool, owning no buffers yet.
    pub fn from_pool(inner: Pool) -> (r: Self)
        ensures
            r.spec_inner() == inner,
            r.spec_buffers() =~= Seq::<u64>::empty(),
            r.spec_next() == 0,
            r.wf(),
    {
        OwningPool { inner, buffers: Vec::new(), next: 0 }
    }

    /// Reserve at least `count` reusable buffers, allocating from the
    /// native pool only as far as the sequence falls short.  Never
    /// shrinks; idempotent when already satisfied.
    pub fn reserve<D: Device>(&mut self, device: &mut D, count: usize)
        requires
            old(self).wf(),
        ensures
            final(self).wf(),
            final(self).spec_inner() == old(self).spec_inner(),
            final(self).spec_next() == old(self).spec_next(),
            final(self).spec_buffers().len() == if old(self).spec_buffers().len() >= count {
                old(self).spec_buffers().len() as int
            } else {
                count as int
            },
            final(self).spec_buffers().take(old(self).spec_buffers().len() as int) == old(self).spec_buffers(),
            old(self).spec_buffers().len() >= count ==> *final(self) == *old(self)
                && *final(device) == *old(device),
    {
        while self.buffers.len() < count
            invariant
                self.wf(),
                self.inner == old(self).inner,
                self.next == old(self).next,
                old(self).buffers@.len() <= self.buffers@.len(),
                self.buffers@.len() <= count || self.buffers@.len() == old(self).buffers@.len(),
                self.buffers@.take(old(self).buffers@.len() as int) == old(self).buffers@,
                old(self).buffers@.len() >= count ==> *self == *old(self) && *device == *old(device),
            decreases count - self.buffers.len(),
        {
            let raw = device.allocate_buffer(self.inner.raw);
            self.buffers.push(raw);
            proof {
                assert(self.buffers@.take(old(self).buffers@.len() as int) == old(self).buffers@);
            }
        }
    }

    /// Acquire the next buffer in the ring in the `Initial` state, growing
    /// the ring by one buffer only when it is exhausted, and advance the
    /// cursor.
    pub fn acquire_buffer<D: Device>(&mut self, device: &mut D, level: Level) -> (r: Buffer)
        requires
            old(self).wf(),
            old(self).spec_buffers().len() < usize::MAX,
        ensures
            final(self).wf(),
            final(self).spec_inner() == old(self).spec_inner(),
            final(self).spec_next() == old(self).spec_next() + 1,
            r.spec_state() == crate::buffer::BufferState::Initial,
            r.spec_level() == level,
            r.spec_capability() == old(self).spec_inner().spec_capability(),
            r.spec_raw() == final(self).spec_buffers()[old(self).spec_next()],
            old(self).spec_next() < old(self).spec_buffers().len() ==> final(self).spec_buffers()
                == old(self).spec_buffers() && *final(device) == *old(device),
            old(self).spec_next() == old(self).spec_buffers().len() ==> final(self).spec_buffers()
                == old(self).spec_buffers().push(r.spec_raw()),
    {
        if self.next == self.buffers.len() {
            let raw = device.allocate_buffer(self.inner.raw);
            self.buffers.push(raw);
        }
        let raw = self.buffers[self.next];
        self.next = self.next + 1;
        Buffer::new(raw, self.inner.capability, level)
    }

    /// Reset all buffers of this pool at once and rewind the ring cursor.
    /// The caller must know that no buffer of this pool is still executing
    /// and that no outside primary buffer still references a secondary
    /// buffer from this pool.
    pub fn reset<D: Device>(&mut self, device: &mut D)
        ensures
            final(self).spec_inner() == old(self).spec_inner(),
            final(self).spec_buffers() == old(self).spec_buffers(),
            final(self).spec_next() == 0,
            final(self).wf(),
    {
        device.reset_pool(self.inner.raw);
        self.next = 0;
    }

    /// Try to narrow the pool's capability; a failed cast hands the
    /// original pool back untouched.
    pub fn cast_capability(self, capability: Capability) -> (r: Result<OwningPool, OwningPool>)
        requires
            self.spec_inner().spec_typed() is None,
        ensures
            self.spec_inner().spec_capability().bits & capability.spec_flags()
                == capability.spec_flags() ==> (r matches Ok(p) && p.spec_inner().spec_raw()
                == self.spec_inner().spec_raw() && p.spec_inner().spec_typed() == Some(capability)
                && p.spec_buffers() == self.spec_buffers() && p.spec_next() == self.spec_next()),
            self.spec_inner().spec_capability().bits & capability.spec_flags()
                != capability.spec_flags() ==> (r matches Err(p) && p == self),
    {
        let OwningPool { inner, buffers, next } = self;
        match inner.cast_capability(capability) {
            Ok(inner) => Ok(OwningPool { inner, buffers, next }),
            Err(inner) => Err(OwningPool { inner, buffers, next }),
        }
    }

    /// Explicit disposal step: free every owned buffer back to the native
    /// pool, then dispose the pool itself.
    pub fn dispose<D: Device>(self, device: &mut D) {
        let OwningPool { mut inner, buffers, next: _ } = self;
        let mut i: usize = 0;
        while i < buffers.len()
            decreases buffers.len() - i,
        {
            device.free_buffer(inner.raw, buffers[i]);
            i = i + 1;
        }
        inner.dispose();
    }
}

/// An [`OwningPool`] bound to frame execution: buffers acquired while
/// bound to frame `n` are recycled only after the device has signaled
/// completion of frame `n`.
#[derive(Debug)]
pub struct FramePool {
    inner: OwningPool,
    frame: Option<FrameIndex>,
}

impl FramePool {
    /// Spec-level underlying owning pool.
    pub closed spec fn spec_inner(&self) -> OwningPool {
        self.inner
    }

    /// Spec-level bound frame, if any.
    pub closed spec fn spec_frame(&self) -> Option<FrameIndex> {
        self.frame
    }

    /// Well-formed when the underlying ring is.
    pub open spec fn wf(&self) -> bool {
        self.spec_inner().wf()
    }

    /// Wrap an owning pool, bound to no frame.
    pub fn from_pool(inner: OwningPool) -> (r: Self)
        ensures
            r.spec_inner() == inner,
            r.spec_frame() is None,
    {
        FramePool { inner, frame: None }
    }

    /// Bind the pool to `frame`.  Buffers may then be acquired only
    /// through the returned binding, and are all scoped to that frame.
    /// A pool still bound to an un-reset frame cannot be bound again.
    pub fn bind(self, frame: &Frame) -> (r: FrameBound)
        requires
            self.spec_frame() is None,
            self.wf(),
        ensures
            r.wf(),
            r.spec_pool().spec_inner() == self.spec_inner(),
            r.spec_pool().spec_frame() == Some(frame.spec_index()),
    {
        let FramePool { inner, frame: _ } = self;
        FrameBound { pool: FramePool { inner, frame: Some(frame.index()) } }
    }

    /// Reset all buffers at once and clear the binding.  Legal only with
    /// a completion token for exactly the bound frame: that is the proof
    /// that no buffer of this pool is still in flight.
    pub fn reset<D: Device>(&mut self, device: &mut D, complete: &CompleteFrame)
        requires
            old(self).wf(),
            old(self).spec_frame() == Some(complete.spec_index()),
        ensures
            final(self).wf(),
            final(self).spec_frame() is None,
            final(self).spec_inner().spec_inner() == old(self).spec_inner().spec_inner(),
            final(self).spec_inner().spec_buffers() == old(self).spec_inner().spec_buffers(),
            final(self).spec_inner().spec_next() == 0,
    {
        self.frame = None;
        self.inner.reset(device);
    }

    /// Try to narrow the pool's capability; a failed cast hands the
    /// original pool back untouched.
    pub fn cast_capability(self, capability: Capability) -> (r: Result<FramePool, FramePool>)
        requires
            self.spec_inner().spec_inner().spec_typed() is None,
        ensures
            self.spec_inner().spec_inner().spec_capability().bits & capability.spec_flags()
                == capability.spec_flags() ==> (r matches Ok(p)
                && p.spec_inner().spec_inner().spec_raw()
                == self.spec_inner().spec_inner().spec_raw()
                && p.spec_inner().spec_inner().spec_typed() == Some(capability)
                && p.spec_inner().spec_buffers() == self.spec_inner().spec_buffers()
                && p.spec_inner().spec_next() == self.spec_inner().spec_next() && p.spec_frame()
                == self.spec_frame()),
            self.spec_inner().spec_inner().spec_capability().bits & capability.spec_flags()
                != capability.spec_flags() ==> (r matches Err(p) && p == self),
    {
        let FramePool { inner, frame } = self;
        match inner.cast_capability(capability) {
            Ok(inner) => Ok(FramePool { inner, frame }),
            Err(inner) => Err(FramePool { inner, frame }),
        }
    }

    /// Explicit disposal step for an unbound pool.
    pub fn dispose<D: Device>(self, device: &mut D)
        requires
            self.spec_frame() is None,
    {
        let FramePool { inner, frame: _ } = self;
        inner.dispose(device);
    }
}

/// Scoped binding of a [`FramePool`] to one frame: while it exists, the
/// pool is reachable only through it, so every buffer acquired is scoped
/// to the bound frame.
#[derive(Debug)]
pub struct FrameBound {
    pool: FramePool,
}

impl FrameBound {
    /// Spec-level bound pool.
    pub closed spec fn spec_pool(&self) -> FramePool {
        self.pool
    }

    /// The pool is well-formed and carries its binding.
    pub open spec fn wf(&self) -> bool {
        self.spec_pool().wf() && self.spec_pool().spec_frame() is Some
    }

    /// Index of the bound frame.
    pub fn frame_index(&self) -> (r: FrameIndex)
        requires
            self.wf(),
        ensures
            Some(r) == self.spec_pool().spec_frame(),
    {
        match self.pool.frame {
            Some(index) => index,
            None => 0,
        }
    }

    /// Reserve at least `count` reusable buffers for the bound frame.
    pub fn reserve<D: Device>(&mut self, device: &mut D, count: usize)
        requires
            old(self).wf(),
        ensures
            final(self).wf(),
            final(self).spec_pool().spec_frame() == old(self).spec_pool().spec_frame(),
            final(self).spec_pool().spec_inner().spec_inner() == old(self).spec_pool().spec_inner().spec_inner(),
            final(self).spec_pool().spec_inner().spec_next() == old(self).spec_pool().spec_inner().spec_next(),
            old(self).spec_pool().spec_inner().spec_buffers().len() >= count ==> *final(self)
                == *old(self) && *final(device) == *old(device),
            final(self).spec_pool().spec_inner().spec_buffers().len() == if old(self).spec_pool().spec_inner().spec_buffers().len() >= count {
                old(self).spec_pool().spec_inner().spec_buffers().len() as int
            } else {
                count as int
            },
    {
        self.pool.inner.reserve(device, count);
    }

    /// Acquire the next buffer in the ring, scoped to the bound frame.
    pub fn acquire_buffer<D: Device>(&mut self, device: &mut D, level: Level) -> (r: Buffer)
        requires
            old(self).wf(),
            old(self).spec_pool().spec_inner().spec_buffers().len() < usize::MAX,
        ensures
            final(self).wf(),
            final(self).spec_pool().spec_frame() == old(self).spec_pool().spec_frame(),
            final(self).spec_pool().spec_inner().spec_next() == old(self).spec_pool().spec_inner().spec_next() + 1,
            r.spec_state() == crate::buffer::BufferState::Initial,
            r.spec_level() == level,
            r.spec_capability() == old(self).spec_pool().spec_inner().spec_inner().spec_capability(),
            old(self).spec_pool().spec_inner().spec_next() < old(self).spec_pool().spec_inner().spec_buffers().len() ==> final(self).spec_pool().spec_inner().spec_buffers() == old(self).spec_pool().spec_inner().spec_buffers() && *final(device) == *old(device),
    {
        self.pool.inner.acquire_buffer(device, level)
    }

    /// Give the pool back, still bound: only `FramePool::reset` with the
    /// frame's completion token clears the binding.
    pub fn unbind(self) -> (r: FramePool)
        ensures
            r == self.spec_pool(),
    {
        self.pool
    }
}

} // verus!
