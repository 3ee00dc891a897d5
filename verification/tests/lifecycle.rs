use winpls::{AppEvent, Effect, Lifecycle, MouseButton, RawMouseButton, WindowInput};

type Effects = Vec<Effect<f32>>;

fn started() -> Lifecycle {
    let mut l = Lifecycle::new();
    let _: Effects = l.resumed();
    l
}

#[test]
fn fresh_lifecycle() {
    let l = Lifecycle::new();
    let s = l.state();
    assert!(!s.initialized && !s.window && !s.backend && s.early_device);
    assert!(!l.is_initialized());
}

#[test]
fn first_resume_builds_backend_then_handler() {
    let mut l = Lifecycle::new();
    let e: Effects = l.resumed();
    assert_eq!(e.len(), 3);
    assert!(matches!(e[0], Effect::StoreWindow));
    assert!(matches!(e[1], Effect::CreateBackend));
    assert!(matches!(e[2], Effect::InitHandler));
    let s = l.state();
    assert!(s.initialized && s.window && s.backend && !s.early_device);
}

#[test]
fn later_resume_only_stores_window() {
    let mut l = started();
    let e: Effects = l.suspended();
    assert_eq!(e.len(), 1);
    assert!(matches!(e[0], Effect::DropWindow));
    assert!(!l.state().window);
    let e: Effects = l.resumed();
    assert_eq!(e.len(), 1);
    assert!(matches!(e[0], Effect::StoreWindow));
    assert!(l.state().window);
}

#[test]
fn suspend_before_resume_builds_nothing() {
    let mut l = Lifecycle::new();
    let e: Effects = l.suspended();
    assert_eq!(e.len(), 1);
    assert!(matches!(e[0], Effect::DropWindow));
    let s = l.state();
    assert!(!s.backend && s.early_device && !s.initialized);
}

#[test]
fn events_before_handler_are_ignored() {
    let l = Lifecycle::new();
    assert!(l.window_event::<f32>(WindowInput::RedrawRequested).is_empty());
    assert!(l.window_event::<f32>(WindowInput::CloseRequested).is_empty());
    assert!(l.window_event::<f32>(WindowInput::CursorEntered).is_empty());
    assert!(l.exiting::<f32>().is_empty());
}

#[test]
fn redraw_draws_then_flips() {
    let l = started();
    let e = l.window_event::<f32>(WindowInput::RedrawRequested);
    assert_eq!(e.len(), 2);
    assert!(matches!(e[0], Effect::Draw));
    assert!(matches!(e[1], Effect::Flip));
}

#[test]
fn close_delivers_quit_then_asks() {
    let l = started();
    let e = l.window_event::<f32>(WindowInput::CloseRequested);
    assert_eq!(e.len(), 2);
    assert!(matches!(e[0], Effect::Deliver(AppEvent::QuitRequested)));
    assert!(matches!(e[1], Effect::AskToQuit));
}

#[test]
fn accepted_quit_exits() {
    let l = started();
    let e = l.quit_answered::<f32>(true);
    assert_eq!(e.len(), 1);
    assert!(matches!(e[0], Effect::ExitLoop));
}

#[test]
fn cancelled_quit_keeps_running() {
    let l = started();
    assert!(l.quit_answered::<f32>(false).is_empty());
    let fresh = Lifecycle::new();
    assert!(fresh.quit_answered::<f32>(true).is_empty());
}

#[test]
fn resize_resizes_backend_tells_handler_and_requests_redraw() {
    let l = started();
    let e = l.window_event::<f32>(WindowInput::Resized { width: 640, height: 480 });
    assert_eq!(e.len(), 3);
    assert!(matches!(e[0], Effect::ResizeBackend { width: 640, height: 480 }));
    assert!(matches!(e[1], Effect::Deliver(AppEvent::WindowResized { width: 640, height: 480 })));
    assert!(matches!(e[2], Effect::RequestRedraw));
}

#[test]
fn resize_without_window_requests_no_redraw() {
    let mut l = started();
    let _: Effects = l.suspended();
    let e = l.window_event::<f32>(WindowInput::Resized { width: 1, height: 2 });
    assert_eq!(e.len(), 2);
    assert!(matches!(e[0], Effect::ResizeBackend { width: 1, height: 2 }));
    assert!(matches!(e[1], Effect::Deliver(AppEvent::WindowResized { width: 1, height: 2 })));
}

#[test]
fn convertible_events_are_delivered() {
    let l = started();
    let e = l.window_event::<f32>(WindowInput::MouseInput { pressed: true, button: RawMouseButton::Right });
    assert_eq!(e.len(), 1);
    assert!(matches!(e[0], Effect::Deliver(AppEvent::MouseButtonDown(MouseButton::Right))));
    let e = l.window_event::<f32>(WindowInput::CursorMoved { x: 1.0, y: 2.0 });
    assert!(matches!(e[0], Effect::Deliver(AppEvent::MouseMotion { .. })));
}

#[test]
fn unconvertible_events_are_dropped() {
    let l = started();
    assert!(l.window_event::<f32>(WindowInput::Other).is_empty());
}

#[test]
fn exiting_tells_handler() {
    let l = started();
    let e = l.exiting::<f32>();
    assert_eq!(e.len(), 1);
    assert!(matches!(e[0], Effect::Quitting));
}

#[test]
fn about_to_wait_requests_redraw_only_with_window() {
    let mut l = Lifecycle::new();
    assert!(l.about_to_wait::<f32>().is_empty());
    let _: Effects = l.resumed();
    let e = l.about_to_wait::<f32>();
    assert_eq!(e.len(), 1);
    assert!(matches!(e[0], Effect::RequestRedraw));
    let _: Effects = l.suspended();
    assert!(l.about_to_wait::<f32>().is_empty());
}

#[test]
fn handler_and_backend_created_once_over_many_resumes() {
    let mut l = Lifecycle::new();
    let mut all: Effects = Vec::new();
    for _ in 0..5 {
        all.extend(l.resumed::<f32>());
        all.extend(l.window_event::<f32>(WindowInput::RedrawRequested));
        all.extend(l.suspended::<f32>());
    }
    let inits = all.iter().filter(|e| matches!(e, Effect::InitHandler)).count();
    let backends = all.iter().filter(|e| matches!(e, Effect::CreateBackend)).count();
    assert_eq!(inits, 1);
    assert_eq!(backends, 1);
    let first_init = all.iter().position(|e| matches!(e, Effect::InitHandler)).unwrap();
    let first_backend = all.iter().position(|e| matches!(e, Effect::CreateBackend)).unwrap();
    let first_draw = all.iter().position(|e| matches!(e, Effect::Draw)).unwrap();
    assert!(first_backend < first_init && first_init < first_draw);
}

#[test]
fn nothing_runs_before_first_resume() {
    let mut l = Lifecycle::new();
    let mut all: Effects = Vec::new();
    all.extend(l.suspended::<f32>());
    all.extend(l.window_event::<f32>(WindowInput::RedrawRequested));
    all.extend(l.window_event::<f32>(WindowInput::CloseRequested));
    all.extend(l.exiting::<f32>());
    all.extend(l.about_to_wait::<f32>());
    all.extend(l.quit_answered::<f32>(true));
    assert!(all.iter().all(|e| matches!(e, Effect::DropWindow)));
}
