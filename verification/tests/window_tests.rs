use slint_shell::platform::{AdapterStep, PlatformLifecycle};
use slint_shell::state::ShellState;
use slint_shell::window::{RenderOutcome, WindowState};

#[test]
fn request_redraw_defers_once() {
    let mut w = WindowState::new((100, 50), (256, 32));
    assert!(w.request_redraw());
    assert!(w.frame_pending() && w.needs_redraw());
    // a second request while the callback is pending adds nothing
    assert!(!w.request_redraw());
}

#[test]
fn frame_callback_draws_pending_request() {
    let mut w = WindowState::new((100, 50), (256, 32));
    w.request_redraw();
    assert!(w.frame_done());
    assert!(!w.needs_redraw() && !w.frame_pending());
    assert!(!w.finish_render(RenderOutcome::Presented));
    assert!(w.frame_pending() && !w.needs_redraw());
    // nothing asked: the next callback draws nothing
    assert!(!w.frame_done());
    assert!(!w.frame_pending());
}

#[test]
fn skipped_or_failed_frames_are_retried() {
    let mut w = WindowState::new((0, 0), (256, 32));
    assert!(w.set_visible(true));
    assert!(w.finish_render(RenderOutcome::Skipped));
    assert!(w.needs_redraw() && w.frame_pending());
    assert!(w.frame_done());
    assert!(w.finish_render(RenderOutcome::Failed));
    assert!(w.needs_redraw() && w.frame_pending());
}

#[test]
fn hiding_keeps_state() {
    let mut w = WindowState::new((10, 10), (256, 32));
    w.request_redraw();
    assert!(!w.set_visible(false));
    assert!(w.needs_redraw() && w.frame_pending());
}

#[test]
fn sizes_and_fallbacks() {
    let mut w = WindowState::new((10, 10), (256, 32));
    assert_eq!(w.logical_size((0, 0)), (256, 32));
    assert_eq!(w.logical_size((300, 0)), (300, 32));
    assert_eq!(w.logical_size((300, 40)), (300, 40));
    assert!(!w.update_size((10, 10)));
    assert!(w.update_size((20, 10)));
    assert_eq!(w.size(), (20, 10));
    assert!(w.resize_window((40, 40)));
    assert!(!w.needs_redraw());
    assert!(!w.resize_window((40, 40)));
}

#[test]
fn configure_keeps_sides_left_open() {
    let mut s = ShellState::new((800, 600));
    assert_eq!(s.configure(Some(1024), None), (1024, 0));
    assert_eq!((s.width, s.height), (1024, 600));
    assert_eq!(s.configure(None, Some(0)), (0, 0));
    assert_eq!((s.width, s.height), (1024, 600));
    assert!(s.keeps_running());
    s.request_exit();
    assert!(!s.keeps_running());
    s.configure(Some(1), Some(1));
    assert!(s.exit);
}

#[test]
fn platform_steps_happen_once() {
    let mut p = PlatformLifecycle::new();
    assert_eq!(p.adapter_step(), AdapterStep::Create);
    assert_eq!(p.adapter_step(), AdapterStep::Reuse);
    assert_eq!(p.start_event_loop(), Ok(()));
    assert_eq!(
        p.start_event_loop(),
        Err("run_event_loop() called more than once".to_string())
    );
}
