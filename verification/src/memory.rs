//! Device memory: property flags, errors, and the owned memory handle.

use vstd::prelude::*;

verus! {

/// Failure of a device memory allocation.
#[derive(Clone, Copy, Debug, PartialEq, Eq, Structural)]
pub enum MemoryError {
    /// The device has no memory left for this request.
    OutOfDeviceMemory,
    /// The requested memory type does not exist on the device.
    InvalidMemoryType,
}

/// Failure of a host mapping request.
#[derive(Clone, Copy, Debug, PartialEq, Eq, Structural)]
pub enum MappingError {
    /// The memory is not visible to the host.
    NotHostVisible,
    /// The requested range lies outside the allocation.
    OutOfBounds,
    /// The device refused the mapping.
    MappingFailed,
}

/// Property flags of a memory type.
#[derive(Clone, Copy, Debug, PartialEq, Eq, Structural)]
pub struct Properties {
    pub bits: u32,
}

impl Properties {
    /// No properties.
    pub fn empty() -> (r: Self)
        ensures
            r.bits == 0u32,
    {
        Properties { bits: 0u32 }
    }

    /// The host can map this memory.
    pub fn host_visible() -> (r: Self)
        ensures
            r.bits == 1u32,
    {
        Properties { bits: 1u32 }
    }

    /// Host writes need no explicit flush.
    pub fn host_coherent() -> (r: Self)
        ensures
            r.bits == 2u32,
    {
        Properties { bits: 2u32 }
    }

    /// Fastest for device access.
    pub fn device_local() -> (r: Self)
        ensures
            r.bits == 4u32,
    {
        Properties { bits: 4u32 }
    }

    /// Union of two property sets.
    pub fn union(self, other: Self) -> (r: Self)
        ensures
            r.bits == (self.bits | other.bits),
    {
        Properties { bits: self.bits | other.bits }
    }

    /// Whether every property of `other` is in `self`.
    pub fn contains(self, other: Self) -> (r: bool)
        ensures
            r == (self.bits & other.bits == other.bits),
    {
        self.bits & other.bits == other.bits
    }
}

/// Exactly one raw device memory handle with its size and properties.
/// Exclusively owned by one block.
#[derive(Clone, Copy, Debug)]
pub struct Memory {
    raw: u64,
    size: u64,
    properties: Properties,
}

impl Memory {
    /// Spec-level raw handle.
    pub closed spec fn spec_raw(&self) -> u64 {
        self.raw
    }

    /// Spec-level size in bytes.
    pub closed spec fn spec_size(&self) -> u64 {
        self.size
    }

    /// Spec-level property flags.
    pub closed spec fn spec_properties(&self) -> Properties {
        self.properties
    }

    /// Wrap a raw handle freshly allocated from the device.
    pub fn from_raw(raw: u64, size: u64, properties: Properties) -> (r: Self)
        ensures
            r.spec_raw() == raw,
            r.spec_size() == size,
            r.spec_properties() == properties,
    {
        Memory { raw, size, properties }
    }

    /// Get the raw handle.
    pub fn raw(&self) -> (r: u64)
        ensures
            r == self.spec_raw(),
    {
        self.raw
    }

    /// Unwrap the raw handle, giving up ownership.
    pub fn into_raw(self) -> (r: u64)
        ensures
            r == self.spec_raw(),
    {
        self.raw
    }

    /// Get the size in bytes.
    pub fn size(&self) -> (r: u64)
        ensures
            r == self.spec_size(),
    {
        self.size
    }

    /// Get the property flags.
    pub fn properties(&self) -> (r: Properties)
        ensures
            r == self.spec_properties(),
    {
        self.properties
    }
}

} // verus!
