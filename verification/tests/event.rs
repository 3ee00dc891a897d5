use winit::keyboard::KeyCode;
use winpls::{AppEvent, MouseButton, PhysicalKey, RawMouseButton, WindowInput};

fn convert(input: WindowInput<f32>) -> Result<AppEvent<f32>, ()> {
    AppEvent::try_from(input)
}

#[test]
fn close_request_becomes_quit_request() {
    assert!(matches!(convert(WindowInput::CloseRequested), Ok(AppEvent::QuitRequested)));
}

#[test]
fn mouse_press_and_release() {
    let down = convert(WindowInput::MouseInput { pressed: true, button: RawMouseButton::Left });
    assert!(matches!(down, Ok(AppEvent::MouseButtonDown(MouseButton::Left))));
    let up = convert(WindowInput::MouseInput { pressed: false, button: RawMouseButton::Left });
    assert!(matches!(up, Ok(AppEvent::MouseButtonUp(MouseButton::Left))));
    let up = convert(WindowInput::MouseInput { pressed: false, button: RawMouseButton::Back });
    assert!(matches!(up, Ok(AppEvent::MouseButtonUp(MouseButton::Unknown))));
}

#[test]
fn cursor_enter_and_leave() {
    assert!(matches!(convert(WindowInput::CursorEntered), Ok(AppEvent::MouseEntered)));
    assert!(matches!(convert(WindowInput::CursorLeft), Ok(AppEvent::MouseLeft)));
}

#[test]
fn cursor_motion_keeps_coordinates() {
    match convert(WindowInput::CursorMoved { x: 12.5, y: -3.0 }) {
        Ok(AppEvent::MouseMotion { x, y }) => {
            assert_eq!(x, 12.5);
            assert_eq!(y, -3.0);
        },
        other => panic!("unexpected {:?}", other),
    }
}

#[test]
fn resize_becomes_window_resized() {
    let r = convert(WindowInput::Resized { width: 800, height: 600 });
    assert!(matches!(r, Ok(AppEvent::WindowResized { width: 800, height: 600 })));
}

#[test]
fn key_press_repeat_and_release() {
    let r = convert(WindowInput::KeyboardInput {
        key: PhysicalKey::Code(KeyCode::Space),
        pressed: true,
        repeat: true,
    });
    assert!(matches!(r, Ok(AppEvent::KeyDown { key: KeyCode::Space, repeated: true })));
    let r = convert(WindowInput::KeyboardInput {
        key: PhysicalKey::Code(KeyCode::Space),
        pressed: true,
        repeat: false,
    });
    assert!(matches!(r, Ok(AppEvent::KeyDown { key: KeyCode::Space, repeated: false })));
    let r = convert(WindowInput::KeyboardInput {
        key: PhysicalKey::Code(KeyCode::KeyQ),
        pressed: false,
        repeat: false,
    });
    assert!(matches!(r, Ok(AppEvent::KeyUp(KeyCode::KeyQ))));
}

#[test]
fn unidentified_key_gives_no_event() {
    for pressed in [true, false] {
        let r = convert(WindowInput::KeyboardInput { key: PhysicalKey::Unidentified, pressed, repeat: false });
        assert!(r.is_err());
    }
}

#[test]
fn redraw_and_other_events_give_no_event() {
    assert!(convert(WindowInput::RedrawRequested).is_err());
    assert!(convert(WindowInput::Other).is_err());
}
