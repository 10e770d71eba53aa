//! The device operations this core consumes.
//!
//! The driver bindings themselves live outside this core; [`Device`] names
//! exactly the calls the allocator, block, and pool logic makes.  Handles
//! and host addresses are carried as plain integers.  [`CountingDevice`]
//! is a verified in-memory implementation that counts every call, so the
//! zero-extra-call guarantees of the mapping and pooling logic can be
//! observed at runtime as well.

use vstd::prelude::*;

use crate::memory::{MappingError, MemoryError};

verus! {

/// Operations of the device/driver this core calls.  No call here blocks
/// waiting on the device; completion signals are the caller's business.
pub trait Device {
    /// Allocate `size` bytes of device memory of the given type.
    fn allocate(&mut self, memory_type: u32, size: u64) -> (r: Result<u64, MemoryError>);

    /// Release a memory allocation.
    fn free(&mut self, memory: u64);

    /// Map `size` bytes of an allocation at `offset` for host access,
    /// returning the host address of the mapped range.
    fn map(&mut self, memory: u64, offset: u64, size: u64) -> (r: Result<u64, MappingError>)
        ensures
            r matches Ok(ptr) ==> ptr + size <= u64::MAX,
    ;

    /// Release the host mapping of an allocation.
    fn unmap(&mut self, memory: u64);

    /// Allocate one native command buffer from a native pool.
    fn allocate_buffer(&mut self, pool: u64) -> (r: u64);

    /// Free one native command buffer back to its native pool.
    fn free_buffer(&mut self, pool: u64, buffer: u64);

    /// Reset every command buffer of a native pool at once.
    fn reset_pool(&mut self, pool: u64);
}

/// In-memory device that hands out fresh handles and counts every call.
#[derive(Clone, Copy, Debug, PartialEq, Eq, Structural)]
pub struct CountingDevice {
    /// Calls to `allocate` that succeeded.
    pub allocate_calls: u64,
    /// Calls to `free`.
    pub free_calls: u64,
    /// Calls to `map` that succeeded.
    pub map_calls: u64,
    /// Calls to `unmap`.
    pub unmap_calls: u64,
    /// Calls to `allocate_buffer`.
    pub buffer_calls: u64,
    /// Calls to `free_buffer`.
    pub free_buffer_calls: u64,
    /// Calls to `reset_pool`.
    pub reset_calls: u64,
    /// When set, every `allocate` is refused.
    pub refuse_allocations: bool,
    /// When set, every `map` is refused.
    pub refuse_mappings: bool,
    /// Next fresh handle to hand out.
    pub next_handle: u64,
}

impl CountingDevice {
    /// A fresh device with all counters at zero.
    pub fn new() -> (r: Self)
        ensures
            r.allocate_calls == 0,
            r.free_calls == 0,
            r.map_calls == 0,
            r.unmap_calls == 0,
            r.buffer_calls == 0,
            r.free_buffer_calls == 0,
            r.reset_calls == 0,
            !r.refuse_allocations,
            !r.refuse_mappings,
    {
        CountingDevice {
            allocate_calls: 0,
            free_calls: 0,
            map_calls: 0,
            unmap_calls: 0,
            buffer_calls: 0,
            free_buffer_calls: 0,
            reset_calls: 0,
            refuse_allocations: false,
            refuse_mappings: false,
            next_handle: 1,
        }
    }
}

impl Device for CountingDevice {
    fn allocate(&mut self, memory_type: u32, size: u64) -> (r: Result<u64, MemoryError>) {
        if self.refuse_allocations {
            Err(MemoryError::OutOfDeviceMemory)
        } else {
            let handle: u64 = self.next_handle;
            self.next_handle = self.next_handle.wrapping_add(1);
            self.allocate_calls = self.allocate_calls.wrapping_add(1);
            Ok(handle)
        }
    }

    fn free(&mut self, memory: u64) {
        self.free_calls = self.free_calls.wrapping_add(1);
    }

    fn map(&mut self, memory: u64, offset: u64, size: u64) -> (r: Result<u64, MappingError>) {
        if self.refuse_mappings {
            Err(MappingError::MappingFailed)
        } else {
            self.map_calls = self.map_calls.wrapping_add(1);
            Ok(0u64)
        }
    }

    fn unmap(&mut self, memory: u64) {
        self.unmap_calls = self.unmap_calls.wrapping_add(1);
    }

    fn allocate_buffer(&mut self, pool: u64) -> (r: u64) {
        let handle: u64 = self.next_handle;
        self.next_handle = self.next_handle.wrapping_add(1);
        self.buffer_calls = self.buffer_calls.wrapping_add(1);
        handle
    }

    fn free_buffer(&mut self, pool: u64, buffer: u64) {
        self.free_buffer_calls = self.free_buffer_calls.wrapping_add(1);
    }

    fn reset_pool(&mut self, pool: u64) {
        self.reset_calls = self.reset_calls.wrapping_add(1);
    }
}

} // verus!
