use papers::gif_processor::GifData;
use papers::viewer::{
    frame_duration_ms, frame_duration_nanos, DrawError, DrawPlan, FramePresentation, GlobalInterface,
    ViewerState, NANOS_PER_MILLI,
};

const MS: u64 = NANOS_PER_MILLI;

fn gif(width: u16, height: u16, delays: &[u16]) -> GifData {
    GifData {
        width,
        height,
        frames_bgra: delays.iter().map(|_| vec![0u8; width as usize * height as usize * 4]).collect(),
        frame_delays: delays.to_vec(),
    }
}

fn ready_viewer(delays: &[u16]) -> ViewerState {
    let mut viewer = ViewerState::new();
    viewer.load_gif(gif(2, 3, delays));
    viewer.record_global(GlobalInterface::from_name(&"wl_shm".to_string()));
    viewer.record_surface_created();
    viewer
}

#[test]
fn frame_durations() {
    assert_eq!(frame_duration_ms(0), 100);
    assert_eq!(frame_duration_ms(1), 10);
    assert_eq!(frame_duration_ms(7), 70);
    assert_eq!(frame_duration_ms(u16::MAX), 655_350);
    assert_eq!(frame_duration_nanos(7), 70 * MS);
}

#[test]
fn global_names() {
    assert_eq!(GlobalInterface::from_name(&"wl_compositor".to_string()), GlobalInterface::Compositor);
    assert_eq!(GlobalInterface::from_name(&"wl_shm".to_string()), GlobalInterface::Shm);
    assert_eq!(GlobalInterface::from_name(&"xdg_wm_base".to_string()), GlobalInterface::WmBase);
    assert_eq!(GlobalInterface::from_name(&"wl_seat".to_string()), GlobalInterface::Other);
    assert_eq!(GlobalInterface::from_name(&"wl_shm_pool".to_string()), GlobalInterface::Other);
}

#[test]
fn new_viewer_wants_a_redraw() {
    let viewer = ViewerState::new();
    assert!(viewer.needs_redraw());
    assert_eq!(viewer.current_frame_index(), 0);
    assert!(viewer.gif_data().is_none());
    assert!(!viewer.frame_callback_pending());
    assert!(viewer.should_draw());
    assert_eq!(viewer.last_frame_time(), None);
    assert!(!viewer.has_compositor() && !viewer.has_shm() && !viewer.has_wm_base());
    assert!(!viewer.has_surface() && !viewer.has_shm_pool() && !viewer.has_buffer());
}

#[test]
fn record_globals() {
    let mut viewer = ViewerState::new();
    viewer.record_global(GlobalInterface::Compositor);
    viewer.record_global(GlobalInterface::WmBase);
    viewer.record_global(GlobalInterface::Other);
    assert!(viewer.has_compositor() && viewer.has_wm_base() && !viewer.has_shm());
}

#[test]
fn first_tick_starts_the_clock() {
    let mut viewer = ready_viewer(&[5, 0]);
    viewer.finish_redraw();
    viewer.advance_animation(1_000);
    assert_eq!(viewer.last_frame_time(), Some(1_000));
    assert!(viewer.needs_redraw());
    assert_eq!(viewer.current_frame_index(), 0);
}

#[test]
fn frames_advance_when_due_and_wrap() {
    let mut viewer = ready_viewer(&[5, 0]);
    viewer.advance_animation(0);
    viewer.finish_redraw();
    // 49.999 ms into a 50 ms frame: nothing changes.
    viewer.advance_animation(50 * MS - 1);
    assert_eq!(viewer.current_frame_index(), 0);
    assert!(!viewer.needs_redraw());
    assert_eq!(viewer.last_frame_time(), Some(0));
    viewer.advance_animation(50 * MS);
    assert_eq!(viewer.current_frame_index(), 1);
    assert!(viewer.needs_redraw());
    assert_eq!(viewer.last_frame_time(), Some(50 * MS));
    // The second frame has delay 0, shown for 100 ms; then back to the first.
    viewer.advance_animation(149 * MS);
    assert_eq!(viewer.current_frame_index(), 1);
    viewer.advance_animation(150 * MS);
    assert_eq!(viewer.current_frame_index(), 0);
}

#[test]
fn animation_loops_over_all_frames() {
    let mut viewer = ready_viewer(&[1, 1, 1]);
    viewer.advance_animation(0);
    let mut now = 0;
    for _ in 0..3 {
        now += 10 * MS;
        viewer.advance_animation(now);
    }
    assert_eq!(viewer.current_frame_index(), 0);
}

#[test]
fn nothing_animates_without_a_gif() {
    let mut viewer = ViewerState::new();
    viewer.finish_redraw();
    viewer.advance_animation(5);
    assert_eq!(viewer.last_frame_time(), None);
    assert!(!viewer.needs_redraw());
    assert_eq!(viewer.sleep_nanos(5), 100 * MS);
}

#[test]
fn sleep_durations() {
    let mut viewer = ready_viewer(&[5]);
    // Clock not started yet.
    assert_eq!(viewer.sleep_nanos(0), MS);
    viewer.advance_animation(0);
    assert_eq!(viewer.sleep_nanos(20 * MS), 30 * MS);
    // Less than a millisecond left: at least 1 ms.
    assert_eq!(viewer.sleep_nanos(50 * MS - 10), MS);
    assert_eq!(viewer.sleep_nanos(80 * MS), MS);
    // A clock that went backwards counts as no time elapsed.
    viewer.advance_animation(100 * MS);
    assert_eq!(viewer.sleep_nanos(10), 50 * MS);
    viewer.record_frame_presented();
    assert_eq!(viewer.sleep_nanos(20 * MS), MS);
}

#[test]
fn frame_callbacks_gate_drawing() {
    let mut viewer = ready_viewer(&[5]);
    assert!(viewer.should_draw());
    viewer.record_frame_presented();
    assert!(viewer.frame_callback_pending());
    assert!(!viewer.should_draw());
    viewer.on_frame_done();
    assert!(viewer.should_draw());
    viewer.finish_redraw();
    assert!(!viewer.should_draw());
    viewer.on_configure();
    assert!(viewer.should_draw());
}

#[test]
fn draw_errors_in_order() {
    let mut viewer = ViewerState::new();
    assert_eq!(viewer.plan_draw(), Err(DrawError::SurfaceMissing));
    viewer.record_surface_created();
    assert_eq!(viewer.plan_draw(), Err(DrawError::ShmMissing));
    viewer.record_global(GlobalInterface::Shm);
    assert_eq!(viewer.plan_draw(), Err(DrawError::GifMissing));
    viewer.load_gif(gif(2, 2, &[]));
    assert_eq!(viewer.plan_draw(), Err(DrawError::NoFrames));
}

#[test]
fn empty_frames_are_skipped() {
    let mut viewer = ViewerState::new();
    viewer.record_surface_created();
    viewer.record_global(GlobalInterface::Shm);
    viewer.load_gif(GifData { width: 4, height: 4, frames_bgra: vec![vec![]], frame_delays: vec![3] });
    assert_eq!(viewer.plan_draw(), Ok(DrawPlan::SkipEmptyFrame { frame_index: 0 }));
}

#[test]
fn presentation_layout_and_steps() {
    let mut viewer = ready_viewer(&[5]);
    assert!(viewer.draw_sizes_fit());
    let first = FramePresentation {
        frame_index: 0,
        width: 2,
        height: 3,
        stride: 8,
        size: 24,
        create_pool: true,
        destroy_old_buffer: false,
        request_frame_callback: true,
    };
    assert_eq!(viewer.plan_draw(), Ok(DrawPlan::Present(first)));
    viewer.record_pool_created();
    viewer.record_frame_presented();
    let second = FramePresentation { create_pool: false, destroy_old_buffer: true, request_frame_callback: false, ..first };
    assert_eq!(viewer.plan_draw(), Ok(DrawPlan::Present(second)));
}

#[test]
fn oversized_buffers_are_reported() {
    let mut viewer = ViewerState::new();
    viewer.record_surface_created();
    viewer.record_global(GlobalInterface::Shm);
    viewer.load_gif(GifData { width: 65535, height: 65535, frames_bgra: vec![vec![1]], frame_delays: vec![0] });
    assert!(!viewer.draw_sizes_fit());
    let mut small = ViewerState::new();
    small.load_gif(GifData { width: 65535, height: 65535, frames_bgra: vec![vec![1]], frame_delays: vec![0] });
    // Without a surface drawing stops before the layout.
    assert!(small.draw_sizes_fit());
}

#[test]
fn loading_a_gif_starts_at_its_first_frame() {
    let mut viewer = ready_viewer(&[1, 1, 1]);
    viewer.advance_animation(0);
    viewer.advance_animation(10 * MS);
    assert_eq!(viewer.current_frame_index(), 1);
    viewer.load_gif(gif(1, 1, &[4]));
    assert_eq!(viewer.current_frame_index(), 0);
    assert_eq!(viewer.gif_data().as_ref().unwrap().frame_delays, vec![4]);
}
