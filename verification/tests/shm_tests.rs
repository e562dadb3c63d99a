use slint_shell::shm::{buffer_len, slot_layout, FramePlan, ShmBuffers, SlotLayout};

#[test]
fn buffer_len_is_four_bytes_per_pixel() {
    assert_eq!(buffer_len(800, 600), 800 * 600 * 4);
    assert_eq!(buffer_len(0, 600), 0);
}

#[test]
fn slot_layout_never_empty() {
    assert_eq!(slot_layout(10, 5), SlotLayout { slot_len: 200, pool_len: 400 });
    assert_eq!(slot_layout(0, 0), SlotLayout { slot_len: 1, pool_len: 2 });
}

#[test]
fn new_buffers_start_at_slot_zero() {
    let (buffers, layout) = ShmBuffers::new(256, 32);
    assert_eq!(layout, SlotLayout { slot_len: 256 * 32 * 4, pool_len: 2 * 256 * 32 * 4 });
    assert_eq!(buffers.size(), (256, 32));
    assert_eq!(
        buffers.frame_plan(),
        Some(FramePlan { slot: 0, width: 256, height: 32, stride: 1024 })
    );
}

#[test]
fn presents_alternate_slots() {
    let (mut buffers, _) = ShmBuffers::new(4, 4);
    assert_eq!(buffers.frame_plan().unwrap().slot, 0);
    buffers.presented();
    assert_eq!(buffers.frame_plan().unwrap().slot, 1);
    buffers.presented();
    assert_eq!(buffers.frame_plan().unwrap().slot, 0);
}

#[test]
fn zero_area_is_not_drawn() {
    let (buffers, _) = ShmBuffers::new(0, 10);
    assert_eq!(buffers.frame_plan(), None);
    let (buffers, _) = ShmBuffers::new(10, 0);
    assert_eq!(buffers.frame_plan(), None);
}

#[test]
fn resize_to_same_size_is_a_no_op() {
    let (mut buffers, _) = ShmBuffers::new(4, 4);
    buffers.presented();
    assert_eq!(buffers.resize_layout(4, 4), None);
    assert_eq!(buffers.frame_plan().unwrap().slot, 1);
}

#[test]
fn resize_restarts_at_slot_zero() {
    let (mut buffers, _) = ShmBuffers::new(4, 4);
    buffers.presented();
    assert_eq!(buffers.resize_layout(8, 2), Some(SlotLayout { slot_len: 64, pool_len: 128 }));
    buffers.resized(8, 2);
    assert_eq!(buffers.size(), (8, 2));
    assert_eq!(
        buffers.frame_plan(),
        Some(FramePlan { slot: 0, width: 8, height: 2, stride: 32 })
    );
}

#[test]
fn frame_buffer_fills_one_slot() {
    let (buffers, layout) = ShmBuffers::new(37, 11);
    let plan = buffers.frame_plan().unwrap();
    assert_eq!((plan.stride * plan.height) as usize, buffer_len(37, 11));
    assert_eq!((plan.stride * plan.height) as usize, layout.slot_len);
    assert_eq!(layout.pool_len, 2 * layout.slot_len);
}

#[test]
fn pool_fits_for_small_and_huge_sizes() {
    assert!(slint_shell::shm::pool_fits_for(1920, 1080));
    assert!(slint_shell::shm::pool_fits_for(0, 0));
    let (buffers, _) = ShmBuffers::new(u32::MAX / 4, 1);
    assert!(!buffers.stride_fits());
    let (buffers, _) = ShmBuffers::new(u32::MAX / 8, 1);
    assert!(buffers.stride_fits());
}
