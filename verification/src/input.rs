//! Mouse buttons and keyboard keys.
use vstd::prelude::*;

verus! {

#[verifier::external_type_specification]
#[verifier::external_body]
pub struct ExKeyCode(winit::keyboard::KeyCode);

/// A mouse button
#[derive(Debug)]
pub enum MouseButton {
    /// Left mouse button
    Left,
    /// Middle mouse button
    Middle,
    /// Right mouse button
    Right,
    /// Any other unrecognized mouse button
    Unknown,
}

/// A mouse button as the windowing system reports it.
#[derive(Debug)]
pub enum RawMouseButton {
    Left,
    Right,
    Middle,
    Back,
    Forward,
    Other(u16),
}

/// A key as the windowing system reports it: either a known key code, or a
/// key that could not be translated to one.
#[derive(Debug)]
pub enum PhysicalKey {
    /// A known key code
    Code(winit::keyboard::KeyCode),
    /// A key without a key code
    Unidentified,
}

/// The button that a raw button stands for: the three main buttons keep
/// their name, every other button is unknown.
pub open spec fn mouse_button_of(raw: RawMouseButton) -> MouseButton {
    match raw {
        RawMouseButton::Left => MouseButton::Left,
        RawMouseButton::Middle => MouseButton::Middle,
        RawMouseButton::Right => MouseButton::Right,
        _ => MouseButton::Unknown,
    }
}

impl From<RawMouseButton> for MouseButton {
    fn from(value: RawMouseButton) -> (r: Self) {
        match value {
            RawMouseButton::Left => MouseButton::Left,
            RawMouseButton::Middle => MouseButton::Middle,
            RawMouseButton::Right => MouseButton::Right,
            _ => MouseButton::Unknown,
        }
    }
}

impl vstd::std_specs::convert::FromSpecImpl<RawMouseButton> for MouseButton {
    open spec fn obeys_from_spec() -> bool {
        true
    }

    open spec fn from_spec(v: RawMouseButton) -> MouseButton {
        mouse_button_of(v)
    }
}

/// The key code of a physical key, if it has one.
pub open spec fn key_code_of(key: PhysicalKey) -> Option<winit::keyboard::KeyCode> {
    match key {
        PhysicalKey::Code(code) => Some(code),
        PhysicalKey::Unidentified => None,
    }
}

/// Convert a physical key into a key code (if possible)
pub fn keycode_from_physical_key(key: PhysicalKey) -> (r: Option<winit::keyboard::KeyCode>)
    ensures
        r == key_code_of(key),
{
    match key {
        PhysicalKey::Code(code) => Some(code),
        PhysicalKey::Unidentified => None,
    }
}

/// Left, middle and right buttons keep their name; back, forward and every
/// other button are unknown.
pub proof fn lemma_mouse_buttons(id: u16)
    ensures
        mouse_button_of(RawMouseButton::Left) == MouseButton::Left,
        mouse_button_of(RawMouseButton::Middle) == MouseButton::Middle,
        mouse_button_of(RawMouseButton::Right) == MouseButton::Right,
        mouse_button_of(RawMouseButton::Back) == MouseButton::Unknown,
        mouse_button_of(RawMouseButton::Forward) == MouseButton::Unknown,
        mouse_button_of(RawMouseButton::Other(id)) == MouseButton::Unknown,
{
}

/// A key with a code gives that code back; an unidentified key gives none.
pub proof fn lemma_key_codes(code: winit::keyboard::KeyCode)
    ensures
        key_code_of(PhysicalKey::Code(code)) == Some(code),
        key_code_of(PhysicalKey::Unidentified) == None::<winit::keyboard::KeyCode>,
{
}

} // verus!
