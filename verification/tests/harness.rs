use render_harness::config::{
    gl_major_version, gl_minor_version, window_height, window_title, window_width,
};
use render_harness::frame::{frame_step, scan_for_quit, FrameAction, InputEvent, LoopState};
use render_harness::gpu::MockGpu;
use render_harness::mesh::{attribute_layout, triangle_indices, triangle_vertices_half};
use render_harness::outcome::{compile_outcome, link_outcome, whitespace_log_buffer};
use render_harness::session::run_session;

#[test]
fn window_configuration_is_fixed() {
    assert_eq!(window_width(), 800);
    assert_eq!(window_height(), 600);
    assert_eq!(window_title(), "OpenGL".to_string());
    assert_eq!(gl_major_version(), 3);
    assert_eq!(gl_minor_version(), 3);
}

#[test]
fn index_buffer_holds_zero_one_two() {
    let indices = triangle_indices();
    assert_eq!(indices, vec![0u32, 1u32, 2u32]);
}

#[test]
fn vertex_buffer_holds_the_six_positions() {
    let halves = triangle_vertices_half();
    assert_eq!(halves, vec![-1i32, -1, 0, -1, 1, 1]);
    let floats: Vec<f32> = halves.iter().map(|h| *h as f32 * 0.5).collect();
    assert_eq!(floats, vec![-0.5f32, -0.5, 0.0, -0.5, 0.5, 0.5]);
}

#[test]
fn attribute_layout_is_two_components_at_slot_zero() {
    let layout = attribute_layout();
    assert_eq!(layout.slot, 0);
    assert_eq!(layout.components, 2);
    assert_eq!(layout.stride_bytes, 8);
    assert_eq!(layout.offset_bytes, 0);
}

#[test]
fn quit_is_found_anywhere_in_a_batch() {
    let batch = vec![InputEvent::Other, InputEvent::Other, InputEvent::Quit];
    assert!(scan_for_quit(&batch));
    let batch = vec![InputEvent::Quit];
    assert!(scan_for_quit(&batch));
}

#[test]
fn no_quit_in_quiet_batches() {
    let batch: Vec<InputEvent> = Vec::new();
    assert!(!scan_for_quit(&batch));
    let batch = vec![InputEvent::Other, InputEvent::Other];
    assert!(!scan_for_quit(&batch));
}

#[test]
fn running_loop_renders_on_quiet_batch() {
    let batch = vec![InputEvent::Other];
    let (state, action) = frame_step(LoopState::Running, &batch);
    assert_eq!(state, LoopState::Running);
    assert_eq!(action, FrameAction::Render);
}

#[test]
fn running_loop_stops_on_quit() {
    let batch = vec![InputEvent::Other, InputEvent::Quit];
    let (state, action) = frame_step(LoopState::Running, &batch);
    assert_eq!(state, LoopState::Stopped);
    assert_eq!(action, FrameAction::Stop);
}

#[test]
fn stopped_loop_stays_stopped() {
    let batch = vec![InputEvent::Other];
    let (state, action) = frame_step(LoopState::Stopped, &batch);
    assert_eq!(state, LoopState::Stopped);
    assert_eq!(action, FrameAction::Stop);
}

#[test]
fn successful_compile_returns_the_handle() {
    let r = compile_outcome(7, true, String::new());
    assert_eq!(r, Ok(7));
}

#[test]
fn failed_compile_returns_the_driver_log() {
    let r = compile_outcome(7, false, "0:1(1): error: syntax error".to_string());
    assert_eq!(r, Err("0:1(1): error: syntax error".to_string()));
}

#[test]
fn successful_link_returns_the_handle() {
    let r = link_outcome(9, 2, true, String::new());
    assert_eq!(r, Ok(9));
}

#[test]
fn link_with_zero_units_is_an_error() {
    let r = link_outcome(9, 0, true, String::new());
    assert_eq!(r, Err(String::new()));
}

#[test]
fn failed_link_returns_the_driver_log() {
    let r = link_outcome(9, 2, false, "stages are incompatible".to_string());
    assert_eq!(r, Err("stages are incompatible".to_string()));
}

#[test]
fn whitespace_buffer_is_all_spaces() {
    let buf = whitespace_log_buffer(5);
    assert_eq!(buf, vec![b' '; 5]);
    let empty = whitespace_log_buffer(0);
    assert!(empty.is_empty());
}

#[test]
fn mock_gpu_pairs_one_allocation_with_one_release() {
    let mut gpu = MockGpu::new();
    let h = gpu.allocate();
    assert_eq!(h, 1);
    assert_eq!(gpu.alloc_count, 1);
    assert_eq!(gpu.release_count, 0);
    assert!(!gpu.is_all_released());
    gpu.release(h);
    assert_eq!(gpu.alloc_count, 1);
    assert_eq!(gpu.release_count, 1);
    assert!(gpu.is_all_released());
}

#[test]
fn mock_gpu_tracks_binding_slots() {
    let mut gpu = MockGpu::new();
    let buffer = gpu.allocate();
    gpu.bind_array_buffer(buffer);
    assert_eq!(gpu.bound_array_buffer, buffer);
    gpu.bind_array_buffer(0);
    assert_eq!(gpu.bound_array_buffer, 0);
    gpu.release(buffer);
    assert!(gpu.is_all_released());
}

#[test]
fn quit_before_first_frame_releases_every_resource() {
    let mut gpu = MockGpu::new();
    let trace = vec![vec![InputEvent::Quit]];
    let frames = run_session(&mut gpu, &trace);
    assert_eq!(frames, 0);
    assert_eq!(gpu.alloc_count, 6);
    assert_eq!(gpu.release_count, 6);
    assert!(gpu.live.is_empty());
    assert!(gpu.is_all_released());
}

#[test]
fn session_renders_until_the_quit_batch() {
    let mut gpu = MockGpu::new();
    let trace = vec![
        vec![InputEvent::Other],
        Vec::new(),
        vec![InputEvent::Other, InputEvent::Quit],
        vec![InputEvent::Other],
    ];
    let frames = run_session(&mut gpu, &trace);
    assert_eq!(frames, 2);
    assert!(gpu.is_all_released());
}

#[test]
fn session_without_quit_renders_every_batch() {
    let mut gpu = MockGpu::new();
    let trace = vec![Vec::new(), Vec::new(), Vec::new()];
    let frames = run_session(&mut gpu, &trace);
    assert_eq!(frames, 3);
    assert!(gpu.is_all_released());
}

#[test]
fn session_uploads_the_triangle_mesh() {
    let mut gpu = MockGpu::new();
    let trace = vec![vec![InputEvent::Quit]];
    run_session(&mut gpu, &trace);
    assert_eq!(gpu.index_store, vec![0u32, 1, 2]);
    assert_eq!(gpu.vertex_store_half, vec![-1i32, -1, 0, -1, 1, 1]);
}
