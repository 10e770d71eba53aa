//! Resource-lifetime and synchronization core of a GPU rendering backend.
//!
//! Device memory is carved into blocks by allocators, command buffers are
//! pooled and recycled across rendered frames, and per-resource access
//! history is tracked as a chain of epochs from which the minimal
//! cross-submission synchronization can be derived.

mod buffer;
mod capability;
mod chain;
mod chains;
mod dedicated;
mod device;
mod frame;
mod memory;
mod pool;

pub use buffer::{Buffer, BufferState, Level};
pub use capability::{Capability, CapabilityFlags, FamilyId};
pub use chain::{lemma_usage_order_independent, no_usage, or_all, usages_of, Chain, Link};
pub use chains::{ChainMap, Id};
pub use dedicated::{mapped_fitting_range, DedicatedAllocator, DedicatedBlock, MappedRange};
pub use device::{CountingDevice, Device};
pub use frame::{CompleteFrame, Frame, FrameIndex};
pub use memory::{MappingError, Memory, MemoryError, Properties};
pub use pool::{FrameBound, FramePool, OwningPool, Pool};
