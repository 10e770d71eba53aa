use render_core::{
    mapped_fitting_range, CountingDevice, DedicatedAllocator, DedicatedBlock, MappingError,
    Memory, MemoryError, Properties,
};

#[test]
fn properties_required_is_empty() {
    assert_eq!(DedicatedAllocator::properties_required().bits, 0);
}

#[test]
fn properties_union_and_contains() {
    let hv = Properties::host_visible();
    let hc = Properties::host_coherent();
    let both = hv.union(hc);
    assert!(both.contains(hv));
    assert!(both.contains(hc));
    assert!(!hv.contains(hc));
}

#[test]
fn from_memory_roundtrip() {
    let memory = Memory::from_raw(7, 64, Properties::host_visible());
    let block = DedicatedBlock::from_memory(memory);
    assert_eq!(block.memory(), 7);
    assert_eq!(block.properties().bits, Properties::host_visible().bits);
    let range = block.range();
    assert_eq!(range.start, 0);
    assert_eq!(range.end, 64);
    assert_eq!(block.unwrap_memory().raw(), 7);
}

#[test]
fn mapped_fitting_range_derives_pointer() {
    assert_eq!(mapped_fitting_range(100, 10..20, 12..18), Some(102));
    assert_eq!(mapped_fitting_range(100, 10..20, 10..20), Some(100));
    assert_eq!(mapped_fitting_range(100, 10..20, 8..18), None);
    assert_eq!(mapped_fitting_range(100, 10..20, 12..22), None);
}

#[test]
fn alloc_free_restores_used() {
    let mut device = CountingDevice::new();
    let mut allocator = DedicatedAllocator::new(0, Properties::host_visible());
    let used_before = allocator.used();
    let (block, size) = allocator.allocate(&mut device, 4096, 256).unwrap();
    assert_eq!(size, 4096);
    assert_eq!(allocator.used(), used_before + 4096);
    let freed = allocator.free(&mut device, block);
    assert_eq!(freed, 4096);
    assert_eq!(allocator.used(), used_before);
    assert_eq!(device.free_calls, 1);
    allocator.dispose();
}

#[test]
fn dedicated_scenario_maps_within_one_allocation() {
    // Allocate a dedicated 64 MiB block; map [0, 1024); map [0, 512) again
    // with zero new device map calls; unmap; free returns 64 MiB and the
    // allocator's used counter drops back to zero.
    let size: u64 = 64 * 1024 * 1024;
    let mut device = CountingDevice::new();
    let mut allocator = DedicatedAllocator::new(0, Properties::host_visible());
    let (mut block, got) = allocator.allocate(&mut device, size, 4096).unwrap();
    assert_eq!(got, size);
    assert_eq!(allocator.used(), size);

    let first = block.map(&mut device, 0..1024).unwrap();
    assert_eq!(device.map_calls, 1);
    let second = block.map(&mut device, 0..512).unwrap();
    assert_eq!(device.map_calls, 1);
    assert_eq!(second.ptr(), first.ptr());
    assert_eq!(second.range(), 0..512);

    block.unmap(&mut device);
    assert_eq!(device.unmap_calls, 1);
    let freed = allocator.free(&mut device, block);
    assert_eq!(freed, size);
    assert_eq!(allocator.used(), 0);
    allocator.dispose();
}

#[test]
fn disjoint_map_unmaps_then_remaps() {
    let mut device = CountingDevice::new();
    let mut allocator = DedicatedAllocator::new(0, Properties::host_visible());
    let (mut block, _) = allocator.allocate(&mut device, 8192, 16).unwrap();
    block.map(&mut device, 0..1024).unwrap();
    assert_eq!(device.map_calls, 1);
    assert_eq!(device.unmap_calls, 0);
    let remapped = block.map(&mut device, 2048..4096).unwrap();
    assert_eq!(device.unmap_calls, 1);
    assert_eq!(device.map_calls, 2);
    assert_eq!(remapped.range(), 2048..4096);
    allocator.free(&mut device, block);
    allocator.dispose();
}

#[test]
fn growing_map_remaps_exactly_new_range() {
    let mut device = CountingDevice::new();
    let mut allocator = DedicatedAllocator::new(0, Properties::host_visible());
    let (mut block, _) = allocator.allocate(&mut device, 8192, 16).unwrap();
    block.map(&mut device, 0..512).unwrap();
    let larger = block.map(&mut device, 0..1024).unwrap();
    assert_eq!(device.map_calls, 2);
    assert_eq!(device.unmap_calls, 1);
    assert_eq!(larger.range(), 0..1024);
    allocator.free(&mut device, block);
    allocator.dispose();
}

#[test]
fn unmap_is_idempotent() {
    let mut device = CountingDevice::new();
    let mut allocator = DedicatedAllocator::new(0, Properties::host_visible());
    let (mut block, _) = allocator.allocate(&mut device, 4096, 16).unwrap();
    block.map(&mut device, 0..16).unwrap();
    block.unmap(&mut device);
    block.unmap(&mut device);
    assert_eq!(device.unmap_calls, 1);
    allocator.free(&mut device, block);
    allocator.dispose();
}

#[test]
fn refused_allocation_reports_and_leaves_counter() {
    let mut device = CountingDevice::new();
    device.refuse_allocations = true;
    let mut allocator = DedicatedAllocator::new(0, Properties::host_visible());
    let result = allocator.allocate(&mut device, 4096, 16);
    assert_eq!(result.unwrap_err(), MemoryError::OutOfDeviceMemory);
    assert_eq!(allocator.used(), 0);
    allocator.dispose();
}

#[test]
fn refused_mapping_reports_and_records_nothing() {
    let mut device = CountingDevice::new();
    let mut allocator = DedicatedAllocator::new(0, Properties::host_visible());
    let (mut block, _) = allocator.allocate(&mut device, 4096, 16).unwrap();
    device.refuse_mappings = true;
    let result = block.map(&mut device, 0..1024);
    assert_eq!(result.unwrap_err(), MappingError::MappingFailed);
    // nothing recorded: a later unmap touches no device mapping
    block.unmap(&mut device);
    assert_eq!(device.unmap_calls, 0);
    allocator.free(&mut device, block);
    allocator.dispose();
}
