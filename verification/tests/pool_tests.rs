use render_core::{
    BufferState, Capability, CapabilityFlags, CountingDevice, FamilyId, Frame, FramePool, Level,
    OwningPool, Pool,
};

fn graphics_pool(raw: u64) -> Pool {
    let flags = CapabilityFlags::graphics().union(CapabilityFlags::transfer());
    Pool::from_raw(raw, flags, false, FamilyId { index: 0 })
}

#[test]
fn failed_cast_returns_intact_pool() {
    let pool = graphics_pool(9);
    let pool = match pool.cast_capability(Capability::Compute) {
        Ok(_) => panic!("graphics pool must not narrow to compute"),
        Err(original) => original,
    };
    assert_eq!(pool.raw(), 9);
    assert_eq!(pool.family(), FamilyId { index: 0 });
    // still fully usable: the successful cast goes through afterwards
    let narrowed = match pool.cast_capability(Capability::Graphics) {
        Ok(p) => p,
        Err(_) => panic!("graphics pool must narrow to graphics"),
    };
    assert_eq!(narrowed.raw(), 9);
    narrowed.dispose();
}

#[test]
fn reserve_is_idempotent_and_never_shrinks() {
    let mut device = CountingDevice::new();
    let mut pool = OwningPool::from_pool(graphics_pool(1));
    pool.reserve(&mut device, 3);
    assert_eq!(device.buffer_calls, 3);
    pool.reserve(&mut device, 3);
    assert_eq!(device.buffer_calls, 3);
    pool.reserve(&mut device, 2);
    assert_eq!(device.buffer_calls, 3);
    pool.dispose(&mut device);
}

#[test]
fn reserved_buffers_satisfy_acquires_without_allocation() {
    let mut device = CountingDevice::new();
    let mut pool = OwningPool::from_pool(graphics_pool(1));
    pool.reserve(&mut device, 3);
    assert_eq!(device.buffer_calls, 3);
    for _ in 0..3 {
        let buffer = pool.acquire_buffer(&mut device, Level::Primary);
        assert_eq!(buffer.state(), BufferState::Initial);
    }
    assert_eq!(device.buffer_calls, 3);
    // the ring is exhausted now: one more acquire grows it by one
    pool.acquire_buffer(&mut device, Level::Primary);
    assert_eq!(device.buffer_calls, 4);
    pool.dispose(&mut device);
}

#[test]
fn reset_recycles_the_ring() {
    let mut device = CountingDevice::new();
    let mut pool = OwningPool::from_pool(graphics_pool(1));
    let first = pool.acquire_buffer(&mut device, Level::Primary);
    pool.acquire_buffer(&mut device, Level::Primary);
    assert_eq!(device.buffer_calls, 2);
    pool.reset(&mut device);
    assert_eq!(device.reset_calls, 1);
    let recycled = pool.acquire_buffer(&mut device, Level::Primary);
    assert_eq!(device.buffer_calls, 2);
    assert_eq!(recycled.raw(), first.raw());
    pool.dispose(&mut device);
}

#[test]
fn owning_pool_cast_keeps_buffers() {
    let mut device = CountingDevice::new();
    let mut pool = OwningPool::from_pool(graphics_pool(4));
    pool.reserve(&mut device, 2);
    let pool = match pool.cast_capability(Capability::Compute) {
        Ok(_) => panic!("graphics pool must not narrow to compute"),
        Err(original) => original,
    };
    // untouched by the failed cast: acquires still need no new allocation
    let mut pool = pool;
    pool.acquire_buffer(&mut device, Level::Primary);
    pool.acquire_buffer(&mut device, Level::Primary);
    assert_eq!(device.buffer_calls, 2);
    pool.dispose(&mut device);
}

#[test]
fn frame_binding_protocol() {
    // Bind frame 3, acquire two buffers, give the pool back, reset with
    // frame 3's completion token, then bind frame 5.
    let mut device = CountingDevice::new();
    let pool = FramePool::from_pool(OwningPool::from_pool(graphics_pool(2)));
    let frame3 = Frame::with_index(3);
    let mut bound = pool.bind(&frame3);
    assert_eq!(bound.frame_index(), 3);
    let a = bound.acquire_buffer(&mut device, Level::Primary);
    let b = bound.acquire_buffer(&mut device, Level::Primary);
    assert_eq!(a.state(), BufferState::Initial);
    assert_ne!(a.raw(), b.raw());
    let mut pool = bound.unbind();
    pool.reset(&mut device, &frame3.complete());
    assert_eq!(device.reset_calls, 1);
    let frame5 = Frame::with_index(5);
    let bound = pool.bind(&frame5);
    assert_eq!(bound.frame_index(), 5);
    let mut pool = bound.unbind();
    pool.reset(&mut device, &frame5.complete());
    pool.dispose(&mut device);
}

#[test]
fn frame_bound_reserve_covers_acquires() {
    let mut device = CountingDevice::new();
    let pool = FramePool::from_pool(OwningPool::from_pool(graphics_pool(2)));
    let frame = Frame::with_index(1);
    let mut bound = pool.bind(&frame);
    bound.reserve(&mut device, 2);
    assert_eq!(device.buffer_calls, 2);
    bound.acquire_buffer(&mut device, Level::Secondary);
    bound.acquire_buffer(&mut device, Level::Secondary);
    assert_eq!(device.buffer_calls, 2);
    let mut pool = bound.unbind();
    pool.reset(&mut device, &frame.complete());
    pool.dispose(&mut device);
}

#[test]
fn frame_pool_failed_cast_returns_intact_pool() {
    let mut device = CountingDevice::new();
    let pool = FramePool::from_pool(OwningPool::from_pool(graphics_pool(6)));
    let pool = match pool.cast_capability(Capability::Compute) {
        Ok(_) => panic!("graphics pool must not narrow to compute"),
        Err(original) => original,
    };
    // the returned pool is the original: binding and resetting still work
    let frame = Frame::with_index(7);
    let mut pool = pool.bind(&frame).unbind();
    pool.reset(&mut device, &frame.complete());
    pool.dispose(&mut device);
}

#[test]
fn buffer_lifecycle_transitions() {
    let mut device = CountingDevice::new();
    let mut pool = OwningPool::from_pool(graphics_pool(1));
    let mut buffer = pool.acquire_buffer(&mut device, Level::Primary);
    assert_eq!(buffer.state(), BufferState::Initial);
    assert!(buffer.is_droppable());
    buffer.begin();
    assert_eq!(buffer.state(), BufferState::Recording);
    assert!(!buffer.is_droppable());
    buffer.finish();
    assert_eq!(buffer.state(), BufferState::Executable);
    buffer.submit();
    assert_eq!(buffer.state(), BufferState::Pending);
    assert!(!buffer.is_droppable());
    buffer.mark_complete();
    assert_eq!(buffer.state(), BufferState::Complete);
    assert!(buffer.is_droppable());
    assert_eq!(buffer.level(), Level::Primary);
    pool.dispose(&mut device);
}

#[test]
fn capability_narrowing_rules() {
    let all = CapabilityFlags::graphics().union(CapabilityFlags::compute()).union(
        CapabilityFlags::transfer(),
    );
    assert!(Capability::General.supported_by(all));
    assert!(Capability::Graphics.supported_by(all));
    assert!(!Capability::General.supported_by(CapabilityFlags::graphics()));
    assert!(!Capability::Transfer.supported_by(CapabilityFlags::empty()));
}
