//! Capability tags restricting which command categories a pool may record.
//!
//! A queue family advertises a set of categories as [`CapabilityFlags`];
//! a pool may be narrowed to one specific [`Capability`] at runtime.

use vstd::prelude::*;

verus! {

/// Bitmask of command categories supported by a queue family or pool.
#[derive(Clone, Copy, Debug, PartialEq, Eq, Structural)]
pub struct CapabilityFlags {
    pub bits: u32,
}

impl CapabilityFlags {
    /// No categories.
    pub fn empty() -> (r: Self)
        ensures
            r.bits == 0u32,
    {
        CapabilityFlags { bits: 0u32 }
    }

    /// Transfer commands.
    pub fn transfer() -> (r: Self)
        ensures
            r.bits == 1u32,
    {
        CapabilityFlags { bits: 1u32 }
    }

    /// Graphics commands.
    pub fn graphics() -> (r: Self)
        ensures
            r.bits == 2u32,
    {
        CapabilityFlags { bits: 2u32 }
    }

    /// Compute commands.
    pub fn compute() -> (r: Self)
        ensures
            r.bits == 4u32,
    {
        CapabilityFlags { bits: 4u32 }
    }

    /// Union of two sets of categories.
    pub fn union(self, other: Self) -> (r: Self)
        ensures
            r.bits == (self.bits | other.bits),
    {
        CapabilityFlags { bits: self.bits | other.bits }
    }

    /// Whether every category of `other` is in `self`.
    pub fn contains(self, other: Self) -> (r: bool)
        ensures
            r == (self.bits & other.bits == other.bits),
    {
        self.bits & other.bits == other.bits
    }
}

/// One specific command category a pool can be statically narrowed to.
/// `General` stands for all categories at once.
#[derive(Clone, Copy, Debug, PartialEq, Eq, Structural)]
pub enum Capability {
    Transfer,
    Graphics,
    Compute,
    General,
}

impl Capability {
    /// The flag bits this capability demands of a pool.
    pub open spec fn spec_flags(self) -> u32 {
        match self {
            Capability::Transfer => 1u32,
            Capability::Graphics => 2u32,
            Capability::Compute => 4u32,
            Capability::General => 7u32,
        }
    }

    /// The flags this capability demands, as a mask.
    pub fn flags(self) -> (r: CapabilityFlags)
        ensures
            r.bits == self.spec_flags(),
    {
        match self {
            Capability::Transfer => CapabilityFlags { bits: 1u32 },
            Capability::Graphics => CapabilityFlags { bits: 2u32 },
            Capability::Compute => CapabilityFlags { bits: 4u32 },
            Capability::General => CapabilityFlags { bits: 7u32 },
        }
    }

    /// Whether a pool with `flags` may be narrowed to this capability.
    pub fn supported_by(self, flags: CapabilityFlags) -> (r: bool)
        ensures
            r == (flags.bits & self.spec_flags() == self.spec_flags()),
    {
        flags.contains(self.flags())
    }
}

/// Identifier of the queue family a pool belongs to.
#[derive(Clone, Copy, Debug, PartialEq, Eq, Structural)]
pub struct FamilyId {
    pub index: u32,
}

} // verus!
