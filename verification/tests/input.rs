use winit::keyboard::KeyCode;
use winpls::{MouseButton, PhysicalKey, RawMouseButton, keycode_from_physical_key};

#[test]
fn main_buttons_keep_their_name() {
    assert!(matches!(MouseButton::from(RawMouseButton::Left), MouseButton::Left));
    assert!(matches!(MouseButton::from(RawMouseButton::Middle), MouseButton::Middle));
    assert!(matches!(MouseButton::from(RawMouseButton::Right), MouseButton::Right));
}

#[test]
fn other_buttons_are_unknown() {
    assert!(matches!(MouseButton::from(RawMouseButton::Back), MouseButton::Unknown));
    assert!(matches!(MouseButton::from(RawMouseButton::Forward), MouseButton::Unknown));
    assert!(matches!(MouseButton::from(RawMouseButton::Other(7)), MouseButton::Unknown));
    let b: MouseButton = RawMouseButton::Other(0).into();
    assert!(matches!(b, MouseButton::Unknown));
}

#[test]
fn known_key_has_code() {
    assert_eq!(keycode_from_physical_key(PhysicalKey::Code(KeyCode::KeyA)), Some(KeyCode::KeyA));
    assert_eq!(keycode_from_physical_key(PhysicalKey::Code(KeyCode::Escape)), Some(KeyCode::Escape));
}

#[test]
fn unidentified_key_has_no_code() {
    assert_eq!(keycode_from_physical_key(PhysicalKey::Unidentified), None);
}
