use metapod::barrier::{
    image_sub_resource_range, transition_image, ACCESS_MEMORY_READ, ACCESS_MEMORY_WRITE,
    IMAGE_ASPECT_COLOR, IMAGE_ASPECT_DEPTH, IMAGE_LAYOUT_DEPTH_ATTACHMENT_OPTIMAL,
    PIPELINE_STAGE_ALL_COMMANDS,
};
use metapod::diagnostics::{
    log_level_for, LogLevel, SEVERITY_ERROR, SEVERITY_INFO, SEVERITY_VERBOSE, SEVERITY_WARNING,
};
use metapod::frames::{FrameError, FrameRing, SlotState, MAX_FRAME_SIZE};

#[test]
fn fresh_ring_starts_at_slot_zero_all_idle() {
    let ring = FrameRing::new();
    assert_eq!(ring.frame(), 0);
    for i in 0..MAX_FRAME_SIZE {
        assert_eq!(ring.slot_state(i), SlotState::Idle);
    }
}

#[test]
fn active_slot_after_k_advances_is_k_mod_size() {
    let mut ring = FrameRing::new();
    for k in 0..10usize {
        assert_eq!(ring.frame(), k % MAX_FRAME_SIZE);
        ring.advance();
    }
    assert_eq!(ring.frame(), 10 % MAX_FRAME_SIZE);
}

#[test]
fn fresh_fence_wait_returns_without_submission() {
    let mut ring = FrameRing::new();
    assert_eq!(ring.wait_for_fence(false), Ok(0));
    assert_eq!(ring.slot_state(0), SlotState::Idle);
}

#[test]
fn wait_after_reset_without_submission_times_out() {
    let mut ring = FrameRing::new();
    assert_eq!(ring.begin_frame(false), Ok(0));
    assert_eq!(ring.slot_state(0), SlotState::Recording);
    assert_eq!(ring.wait_for_fence(true), Err(FrameError::FenceTimeout));
    assert_eq!(ring.wait_for_fence(false), Err(FrameError::FenceTimeout));
}

#[test]
fn reset_before_wait_is_refused() {
    let mut ring = FrameRing::new();
    assert_eq!(ring.reset_fence(), Ok(()));
    assert_eq!(ring.reset_fence(), Err(FrameError::FenceNotWaited));
    assert_eq!(ring.submit(), Ok(()));
    assert_eq!(ring.submit(), Err(FrameError::NotRecording));
    assert_eq!(ring.reset_fence(), Err(FrameError::FenceNotWaited));
}

#[test]
fn submitted_slot_frees_when_gpu_signals() {
    let mut ring = FrameRing::new();
    assert_eq!(ring.begin_frame(false), Ok(0));
    ring.end_frame(true);
    assert_eq!(ring.slot_state(0), SlotState::Submitted);
    assert_eq!(ring.frame(), 1);
    assert_eq!(ring.begin_frame(false), Ok(1));
    ring.end_frame(true);
    assert_eq!(ring.frame(), 0);
    assert_eq!(ring.begin_frame(false), Err(FrameError::FenceTimeout));
    assert_eq!(ring.slot_state(0), SlotState::Submitted);
    assert_eq!(ring.begin_frame(true), Ok(0));
    assert_eq!(ring.slot_state(0), SlotState::Recording);
}

#[test]
fn advance_happens_even_without_submission() {
    let mut ring = FrameRing::new();
    assert_eq!(ring.begin_frame(true), Ok(0));
    ring.end_frame(false);
    assert_eq!(ring.frame(), 1);
    assert_eq!(ring.slot_state(0), SlotState::Recording);
}

#[test]
fn severities_map_to_log_levels() {
    assert_eq!(log_level_for(SEVERITY_WARNING), LogLevel::Warn);
    assert_eq!(log_level_for(SEVERITY_ERROR), LogLevel::Error);
    assert_eq!(log_level_for(SEVERITY_INFO), LogLevel::Info);
    assert_eq!(log_level_for(SEVERITY_VERBOSE), LogLevel::Info);
    assert_eq!(log_level_for(SEVERITY_WARNING | SEVERITY_ERROR), LogLevel::Info);
}

#[test]
fn depth_layout_transition_uses_depth_aspect() {
    let b = transition_image(7, 0, IMAGE_LAYOUT_DEPTH_ATTACHMENT_OPTIMAL);
    assert_eq!(b.image, 7);
    assert_eq!(b.subresource_range.aspect_mask, IMAGE_ASPECT_DEPTH);
    assert_eq!(b.old_layout, 0);
    assert_eq!(b.new_layout, IMAGE_LAYOUT_DEPTH_ATTACHMENT_OPTIMAL);
    assert_eq!(b.src_stage_mask, PIPELINE_STAGE_ALL_COMMANDS);
    assert_eq!(b.src_access_mask, ACCESS_MEMORY_WRITE);
    assert_eq!(b.dst_access_mask, ACCESS_MEMORY_WRITE | ACCESS_MEMORY_READ);
}

#[test]
fn colour_layout_transition_covers_whole_image() {
    let b = transition_image(3, 1, 2);
    assert_eq!(b.subresource_range, image_sub_resource_range(IMAGE_ASPECT_COLOR));
    assert_eq!(b.subresource_range.level_count, u32::MAX);
    assert_eq!(b.subresource_range.layer_count, u32::MAX);
    assert_eq!(b.subresource_range.base_mip_level, 0);
    assert_eq!(b.subresource_range.base_array_layer, 0);
}
