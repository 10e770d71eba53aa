//! Dedicated allocation: one device memory object per request.
//!
//! This strategy suits huge allocations, where per-object allocation
//! overhead is negligible next to the bookkeeping and fragmentation a
//! sub-allocator would add.  The allocator keeps a running `used` byte
//! counter as a leak detector: it must be exactly zero again before the
//! allocator is disposed.

use vstd::prelude::*;

use core::ops::Range;

use crate::device::Device;
use crate::memory::{MappingError, Memory, MemoryError, Properties};

verus! {

/// A scoped token proving its block is currently host-mapped over
/// `[start, end)`, with `ptr` the host address of byte `start`.
#[derive(Clone, Copy, Debug)]
pub struct MappedRange {
    ptr: u64,
    start: u64,
    end: u64,
}

impl MappedRange {
    /// Spec-level host address of the first mapped byte.
    pub closed spec fn spec_ptr(&self) -> u64 {
        self.ptr
    }

    /// Spec-level start of the mapped byte range.
    pub closed spec fn spec_start(&self) -> u64 {
        self.start
    }

    /// Spec-level end of the mapped byte range.
    pub closed spec fn spec_end(&self) -> u64 {
        self.end
    }

    /// Host address of the first mapped byte.
    pub fn ptr(&self) -> (r: u64)
        ensures
            r == self.spec_ptr(),
    {
        self.ptr
    }

    /// The mapped byte range.
    pub fn range(&self) -> (r: Range<u64>)
        ensures
            r.start == self.spec_start(),
            r.end == self.spec_end(),
    {
        self.start..self.end
    }
}

/// Host address of `requested.start` derived from an existing mapping,
/// when the existing mapping fully contains the requested range.
pub fn mapped_fitting_range(ptr: u64, mapped: Range<u64>, requested: Range<u64>) -> (r: Option<
    u64,
>)
    requires
        mapped.start <= mapped.end,
        ptr + (mapped.end - mapped.start) <= u64::MAX,
    ensures
        (mapped.start <= requested.start && requested.end <= mapped.end && requested.start
            <= requested.end) ==> r == Some((ptr + (requested.start - mapped.start)) as u64),
        !(mapped.start <= requested.start && requested.end <= mapped.end && requested.start
            <= requested.end) ==> r is None,
{
    if mapped.start <= requested.start && requested.end <= mapped.end && requested.start
        <= requested.end {
        Some(ptr + (requested.start - mapped.start))
    } else {
        None
    }
}

/// Memory block produced by a [`DedicatedAllocator`]: the whole memory
/// object, with at most one active host mapping at any time.
#[derive(Clone, Copy, Debug)]
pub struct DedicatedBlock {
    memory: Memory,
    mapping: Option<(u64, u64, u64)>,
}

impl DedicatedBlock {
    /// Spec-level owned memory.
    pub closed spec fn spec_memory(&self) -> Memory {
        self.memory
    }

    /// Spec-level active mapping: host address, range start, range end.
    pub closed spec fn spec_mapping(&self) -> Option<(u64, u64, u64)> {
        self.mapping
    }

    /// A recorded mapping covers a well-formed range whose host addresses
    /// fit the address space.
    pub open spec fn wf(&self) -> bool {
        match self.spec_mapping() {
            Some((ptr, start, end)) => start <= end && ptr + (end - start) <= u64::MAX,
            None => true,
        }
    }

    /// Whether the active mapping fully contains `[start, end)`.
    pub open spec fn spec_mapping_contains(&self, start: u64, end: u64) -> bool {
        match self.spec_mapping() {
            Some((_, mapped_start, mapped_end)) => mapped_start <= start && end <= mapped_end,
            None => false,
        }
    }

    /// Make an unmapped block owning `memory`.
    pub fn from_memory(memory: Memory) -> (r: Self)
        ensures
            r.spec_memory() == memory,
            r.spec_mapping() is None,
            r.wf(),
    {
        DedicatedBlock { memory, mapping: None }
    }

    /// Get the inner memory back; the block must be unmapped first.
    pub fn unwrap_memory(self) -> (r: Memory)
        requires
            self.spec_mapping() is None,
        ensures
            r == self.spec_memory(),
    {
        self.memory
    }

    /// Property flags of the owned memory.
    pub fn properties(&self) -> (r: Properties)
        ensures
            r == self.spec_memory().spec_properties(),
    {
        self.memory.properties()
    }

    /// Raw handle of the owned memory.
    pub fn memory(&self) -> (r: u64)
        ensures
            r == self.spec_memory().spec_raw(),
    {
        self.memory.raw()
    }

    /// Byte range of this block within its memory: the whole object.
    pub fn range(&self) -> (r: Range<u64>)
        ensures
            r.start == 0,
            r.end == self.spec_memory().spec_size(),
    {
        0..self.memory.size()
    }

    /// Map `range` for host access.
    ///
    /// If the active mapping already contains `range`, the returned pointer
    /// is derived from it and the device is not touched at all.  Otherwise
    /// any active mapping is released first and a fresh device mapping of
    /// exactly `range` is issued and recorded.  On device refusal no
    /// mapping is recorded.
    pub fn map<D: Device>(&mut self, device: &mut D, range: Range<u64>) -> (r: Result<
        MappedRange,
        MappingError,
    >)
        requires
            old(self).wf(),
            range.start <= range.end,
        ensures
            final(self).wf(),
            final(self).spec_memory() == old(self).spec_memory(),
            old(self).spec_mapping_contains(range.start, range.end) ==> *final(self) == *old(self)
                && *final(device) == *old(device) && r is Ok,
            r matches Ok(m) ==> m.spec_start() == range.start && m.spec_end() == range.end
                && final(self).spec_mapping_contains(range.start, range.end)
                && m.spec_ptr() + (range.end - range.start) <= u64::MAX,
            r matches Ok(m) ==> (old(self).spec_mapping_contains(range.start, range.end)
                ==> m.spec_ptr() == old(self).spec_mapping()->Some_0.0
                + (range.start - old(self).spec_mapping()->Some_0.1)),
            r matches Ok(m) ==> (!old(self).spec_mapping_contains(range.start, range.end)
                ==> final(self).spec_mapping() == Some((m.spec_ptr(), range.start, range.end))),
            r is Err ==> final(self).spec_mapping() is None,
    {
        match self.mapping {
            Some((ptr, mapped_start, mapped_end)) => {
                match mapped_fitting_range(ptr, mapped_start..mapped_end, range.start..range.end) {
                    Some(fitted) => Ok(
                        MappedRange { ptr: fitted, start: range.start, end: range.end },
                    ),
                    None => {
                        self.mapping = None;
                        device.unmap(self.memory.raw());
                        self.map_fresh(device, range)
                    },
                }
            },
            None => self.map_fresh(device, range),
        }
    }

    /// Issue a fresh device mapping of exactly `range` and record it.
    fn map_fresh<D: Device>(&mut self, device: &mut D, range: Range<u64>) -> (r: Result<
        MappedRange,
        MappingError,
    >)
        requires
            old(self).spec_mapping() is None,
            range.start <= range.end,
        ensures
            final(self).wf(),
            final(self).spec_memory() == old(self).spec_memory(),
            r matches Ok(m) ==> m.spec_start() == range.start && m.spec_end() == range.end
                && m.spec_ptr() + (range.end - range.start) <= u64::MAX
                && final(self).spec_mapping() == Some((m.spec_ptr(), range.start, range.end)),
            r is Err ==> final(self).spec_mapping() is None,
    {
        match device.map(self.memory.raw(), range.start, range.end - range.start) {
            Ok(ptr) => {
                self.mapping = Some((ptr, range.start, range.end));
                Ok(MappedRange { ptr, start: range.start, end: range.end })
            },
            Err(e) => Err(e),
        }
    }

    /// Release the active mapping.  Idempotent: with nothing mapped,
    /// neither the block nor the device is touched.
    pub fn unmap<D: Device>(&mut self, device: &mut D)
        ensures
            final(self).spec_mapping() is None,
            final(self).spec_memory() == old(self).spec_memory(),
            final(self).wf(),
            old(self).spec_mapping() is None ==> *final(self) == *old(self)
                && *final(device) == *old(device),
    {
        if self.mapping.is_some() {
            self.mapping = None;
            device.unmap(self.memory.raw());
        }
    }
}

/// Allocator that requests one device memory object per allocation.
#[derive(Clone, Copy, Debug)]
pub struct DedicatedAllocator {
    memory_type: u32,
    memory_properties: Properties,
    used: u64,
}

impl DedicatedAllocator {
    /// Spec-level memory type index served by this allocator.
    pub closed spec fn spec_memory_type(&self) -> u32 {
        self.memory_type
    }

    /// Spec-level properties of the memory type served.
    pub closed spec fn spec_properties(&self) -> Properties {
        self.memory_properties
    }

    /// Spec-level outstanding bytes.
    pub closed spec fn spec_used(&self) -> u64 {
        self.used
    }

    /// Properties the allocator itself requires of its memory type: none.
    pub fn properties_required() -> (r: Properties)
        ensures
            r.bits == 0u32,
    {
        Properties::empty()
    }

    /// Create a new `DedicatedAllocator` for `memory_type` with
    /// `memory_properties`.
    pub fn new(memory_type: u32, memory_properties: Properties) -> (r: Self)
        ensures
            r.spec_memory_type() == memory_type,
            r.spec_properties() == memory_properties,
            r.spec_used() == 0,
    {
        DedicatedAllocator { memory_type, memory_properties, used: 0 }
    }

    /// Outstanding bytes: the sum of the sizes of all live blocks.
    pub fn used(&self) -> (r: u64)
        ensures
            r == self.spec_used(),
    {
        self.used
    }

    /// Allocate a block of at least `size` bytes.  The alignment argument
    /// is ignored: whole-object device allocations are implicitly aligned.
    ///
    /// On success the second component is the number of bytes actually
    /// consumed (here always exactly `size`) and `used` grows by it; on
    /// device refusal the allocator is left exactly as it was.
    pub fn allocate<D: Device>(&mut self, device: &mut D, size: u64, align: u64) -> (r: Result<
        (DedicatedBlock, u64),
        MemoryError,
    >)
        requires
            old(self).spec_used() + size <= u64::MAX,
        ensures
            final(self).spec_memory_type() == old(self).spec_memory_type(),
            final(self).spec_properties() == old(self).spec_properties(),
            r matches Ok(ok) ==> ok.1 == size && final(self).spec_used() == old(self).spec_used()
                + size && ok.0.spec_mapping() is None && ok.0.wf()
                && ok.0.spec_memory().spec_size() == size && ok.0.spec_memory().spec_properties()
                == old(self).spec_properties(),
            r is Err ==> *final(self) == *old(self),
    {
        match device.allocate(self.memory_type, size) {
            Ok(raw) => {
                let memory = Memory::from_raw(raw, size, self.memory_properties);
                self.used = self.used + size;
                Ok((DedicatedBlock::from_memory(memory), size))
            },
            Err(e) => Err(e),
        }
    }

    /// Free a block: unmap it if still mapped, release the device handle,
    /// and shrink `used` by the block's size, which is returned.
    pub fn free<D: Device>(&mut self, device: &mut D, block: DedicatedBlock) -> (r: u64)
        requires
            block.wf(),
            block.spec_memory().spec_size() <= old(self).spec_used(),
        ensures
            r == block.spec_memory().spec_size(),
            final(self).spec_used() == old(self).spec_used() - r,
            final(self).spec_memory_type() == old(self).spec_memory_type(),
            final(self).spec_properties() == old(self).spec_properties(),
    {
        let mut block = block;
        block.unmap(device);
        let memory = block.unwrap_memory();
        let size: u64 = memory.size();
        self.used = self.used - size;
        device.free(memory.into_raw());
        size
    }

    /// Explicit disposal step: an allocator may only be discarded once
    /// every block it produced has been freed back to it.
    pub fn dispose(self)
        requires
            self.spec_used() == 0,
    {
    }
}

/// Law: a free that returns the size a matching alloc consumed restores
/// the `used` counter to exactly its value before that alloc.
pub proof fn lemma_used_restored(
    before: DedicatedAllocator,
    after_alloc: DedicatedAllocator,
    after_free: DedicatedAllocator,
    size: u64,
)
    requires
        before.spec_used() + size <= u64::MAX,
        after_alloc.spec_used() == before.spec_used() + size,
        after_free.spec_used() == after_alloc.spec_used() - size,
    ensures
        after_free.spec_used() == before.spec_used(),
{
}

} // verus!
