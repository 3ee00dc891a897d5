//! Application events, and how window events become application events.
use vstd::prelude::*;
use crate::input::{MouseButton, PhysicalKey, RawMouseButton, key_code_of, mouse_button_of, keycode_from_physical_key};

verus! {

/// A window event as the windowing system reports it, reduced to what the
/// framework reads of it. `C` is the type of a cursor coordinate.
#[derive(Debug)]
pub enum WindowInput<C> {
    /// The window should be drawn again
    RedrawRequested,
    /// The user asked to close the window
    CloseRequested,
    /// The window changed its dimensions
    Resized { width: u32, height: u32 },
    /// A mouse button was pressed (`pressed`) or released
    MouseInput { pressed: bool, button: RawMouseButton },
    /// The cursor entered the window
    CursorEntered,
    /// The cursor left the window
    CursorLeft,
    /// The cursor moved to the given coordinates
    CursorMoved { x: C, y: C },
    /// A key was pressed (`pressed`) or released; `repeat` marks an event
    /// that the system repeats while the key is held
    KeyboardInput { key: PhysicalKey, pressed: bool, repeat: bool },
    /// Any other window event
    Other,
}

/// An app lifecycle event. `C` is the type of a cursor coordinate.
#[derive(Debug)]
pub enum AppEvent<C> {
    /// The app has requested to quit. This however can be cancelled.
    QuitRequested,
    /// A mouse button was pressed
    MouseButtonDown(MouseButton),
    /// A mouse button was released
    MouseButtonUp(MouseButton),
    /// A mouse has entered the window
    MouseEntered,
    /// A mouse has left the window
    MouseLeft,
    /// A mouse has moved to the provided coordinates
    MouseMotion {
        /// The x coordinate of the mouse
        x: C,
        /// The y coordinate of the mouse
        y: C,
    },
    /// A key was pressed
    KeyDown {
        /// The keycode being pressed
        key: winit::keyboard::KeyCode,
        /// Whether this is a repeated event (on some OS this happens when holding a key down for a few seconds)
        repeated: bool,
    },
    /// A key was released
    KeyUp(winit::keyboard::KeyCode),
    /// The window changed its dimensions
    WindowResized {
        /// The new width of the window
        width: u32,
        /// The new height of the window
        height: u32,
    },
}

/// The application event that a window event stands for, or `Err(())` for
/// window events that have none (redraws, keys without a key code, and every
/// event the framework does not read).
pub open spec fn app_event_of<C>(input: WindowInput<C>) -> Result<AppEvent<C>, ()> {
    match input {
        WindowInput::CloseRequested => Ok(AppEvent::QuitRequested),
        WindowInput::MouseInput { pressed, button } => Ok(
            if pressed {
                AppEvent::MouseButtonDown(mouse_button_of(button))
            } else {
                AppEvent::MouseButtonUp(mouse_button_of(button))
            },
        ),
        WindowInput::CursorEntered => Ok(AppEvent::MouseEntered),
        WindowInput::CursorLeft => Ok(AppEvent::MouseLeft),
        WindowInput::CursorMoved { x, y } => Ok(AppEvent::MouseMotion { x, y }),
        WindowInput::Resized { width, height } => Ok(AppEvent::WindowResized { width, height }),
        WindowInput::KeyboardInput { key, pressed, repeat } => match key_code_of(key) {
            Some(code) => Ok(
                if pressed {
                    AppEvent::KeyDown { key: code, repeated: repeat }
                } else {
                    AppEvent::KeyUp(code)
                },
            ),
            None => Err(()),
        },
        _ => Err(()),
    }
}

impl<C> TryFrom<WindowInput<C>> for AppEvent<C> {
    type Error = ();

    fn try_from(value: WindowInput<C>) -> (r: Result<Self, Self::Error>) {
        match value {
            WindowInput::CloseRequested => Ok(AppEvent::QuitRequested),
            WindowInput::MouseInput { pressed, button } => Ok(
                if pressed {
                    AppEvent::MouseButtonDown(MouseButton::from(button))
                } else {
                    AppEvent::MouseButtonUp(MouseButton::from(button))
                },
            ),
            WindowInput::CursorEntered => Ok(AppEvent::MouseEntered),
            WindowInput::CursorLeft => Ok(AppEvent::MouseLeft),
            WindowInput::CursorMoved { x, y } => Ok(AppEvent::MouseMotion { x, y }),
            WindowInput::Resized { width, height } => Ok(AppEvent::WindowResized { width, height }),
            WindowInput::KeyboardInput { key, pressed, repeat } => {
                // Unknown keys don't get any events as of now
                match keycode_from_physical_key(key) {
                    Some(code) => Ok(
                        if pressed {
                            AppEvent::KeyDown { key: code, repeated: repeat }
                        } else {
                            AppEvent::KeyUp(code)
                        },
                    ),
                    None => Err(()),
                }
            },
            _ => Err(()),
        }
    }
}

impl<C> vstd::std_specs::convert::TryFromSpecImpl<WindowInput<C>> for AppEvent<C> {
    open spec fn obeys_try_from_spec() -> bool {
        true
    }

    open spec fn try_from_spec(v: WindowInput<C>) -> Result<AppEvent<C>, ()> {
        app_event_of(v)
    }
}

/// Keys without a key code give no application event, pressed or released.
pub proof fn lemma_unknown_keys_give_no_event<C>(pressed: bool, repeat: bool)
    ensures
        app_event_of::<C>(WindowInput::KeyboardInput { key: PhysicalKey::Unidentified, pressed, repeat }) is Err,
{
}

/// Pressing and releasing a button name the same button: the press becomes
/// `MouseButtonDown(b)` and the release `MouseButtonUp(b)` for one `b`.
pub proof fn lemma_press_and_release_name_same_button<C>(button: RawMouseButton)
    ensures
        ({
            let b = mouse_button_of(button);
            &&& app_event_of::<C>(WindowInput::MouseInput { pressed: true, button }) == Ok::<AppEvent<C>, ()>(AppEvent::MouseButtonDown(b))
            &&& app_event_of::<C>(WindowInput::MouseInput { pressed: false, button }) == Ok::<AppEvent<C>, ()>(AppEvent::MouseButtonUp(b))
        }),
{
}

/// A known key gives a key-down event when pressed, carrying the repeat
/// flag, and a key-up event when released, for the same key code.
pub proof fn lemma_key_events_keep_code<C>(code: winit::keyboard::KeyCode, repeat: bool)
    ensures
        app_event_of::<C>(WindowInput::KeyboardInput { key: PhysicalKey::Code(code), pressed: true, repeat })
            == Ok::<AppEvent<C>, ()>(AppEvent::KeyDown { key: code, repeated: repeat }),
        app_event_of::<C>(WindowInput::KeyboardInput { key: PhysicalKey::Code(code), pressed: false, repeat })
            == Ok::<AppEvent<C>, ()>(AppEvent::KeyUp(code)),
{
}

/// What each window event converts to, for every input: a close request is
/// a quit request; a mouse press or release names the button; the cursor's
/// entering, leaving and moving keep their coordinates; a resize keeps its
/// width and height, in that order; a known key gives a press (with its
/// repeat flag) or a release of that key; a key without a code, a redraw
/// and every other event give nothing.
pub proof fn lemma_conversion_of_each_event<C>(
    width: u32,
    height: u32,
    x: C,
    y: C,
    code: winit::keyboard::KeyCode,
    pressed: bool,
    repeat: bool,
)
    ensures
        app_event_of::<C>(WindowInput::CloseRequested) == Ok::<AppEvent<C>, ()>(AppEvent::QuitRequested),
        app_event_of::<C>(WindowInput::CursorEntered) == Ok::<AppEvent<C>, ()>(AppEvent::MouseEntered),
        app_event_of::<C>(WindowInput::CursorLeft) == Ok::<AppEvent<C>, ()>(AppEvent::MouseLeft),
        app_event_of::<C>((WindowInput::CursorMoved { x, y })) == Ok::<AppEvent<C>, ()>(
            (AppEvent::MouseMotion { x, y }),
        ),
        app_event_of::<C>((WindowInput::Resized { width, height })) matches Ok(
            AppEvent::WindowResized { width: w, height: h },
        ) && w == width && h == height,
        pressed ==> app_event_of::<C>(
            (WindowInput::KeyboardInput { key: PhysicalKey::Code(code), pressed, repeat }),
        ) == Ok::<AppEvent<C>, ()>((AppEvent::KeyDown { key: code, repeated: repeat })),
        !pressed ==> app_event_of::<C>(
            (WindowInput::KeyboardInput { key: PhysicalKey::Code(code), pressed, repeat }),
        ) == Ok::<AppEvent<C>, ()>(AppEvent::KeyUp(code)),
        app_event_of::<C>(
            (WindowInput::KeyboardInput { key: PhysicalKey::Unidentified, pressed, repeat }),
        ) is Err,
        app_event_of::<C>(WindowInput::RedrawRequested) is Err,
        app_event_of::<C>(WindowInput::Other) is Err,
{
}

/// Which button a press or release names: left, middle and right keep their
/// name, every other button is unknown; a press is a button-down and a
/// release a button-up.
pub proof fn lemma_conversion_of_mouse_buttons<C>(pressed: bool, id: u16)
    ensures
        app_event_of::<C>((WindowInput::MouseInput { pressed: true, button: RawMouseButton::Left }))
            == Ok::<AppEvent<C>, ()>(AppEvent::MouseButtonDown(MouseButton::Left)),
        app_event_of::<C>((WindowInput::MouseInput { pressed: false, button: RawMouseButton::Left }))
            == Ok::<AppEvent<C>, ()>(AppEvent::MouseButtonUp(MouseButton::Left)),
        app_event_of::<C>((WindowInput::MouseInput { pressed: true, button: RawMouseButton::Middle }))
            == Ok::<AppEvent<C>, ()>(AppEvent::MouseButtonDown(MouseButton::Middle)),
        app_event_of::<C>((WindowInput::MouseInput { pressed: false, button: RawMouseButton::Middle }))
            == Ok::<AppEvent<C>, ()>(AppEvent::MouseButtonUp(MouseButton::Middle)),
        app_event_of::<C>((WindowInput::MouseInput { pressed: true, button: RawMouseButton::Right }))
            == Ok::<AppEvent<C>, ()>(AppEvent::MouseButtonDown(MouseButton::Right)),
        app_event_of::<C>((WindowInput::MouseInput { pressed: false, button: RawMouseButton::Right }))
            == Ok::<AppEvent<C>, ()>(AppEvent::MouseButtonUp(MouseButton::Right)),
        app_event_of::<C>((WindowInput::MouseInput { pressed, button: RawMouseButton::Back }))
            == Ok::<AppEvent<C>, ()>(
            if pressed { AppEvent::MouseButtonDown(MouseButton::Unknown) } else { AppEvent::MouseButtonUp(MouseButton::Unknown) },
        ),
        app_event_of::<C>((WindowInput::MouseInput { pressed, button: RawMouseButton::Forward }))
            == Ok::<AppEvent<C>, ()>(
            if pressed { AppEvent::MouseButtonDown(MouseButton::Unknown) } else { AppEvent::MouseButtonUp(MouseButton::Unknown) },
        ),
        app_event_of::<C>((WindowInput::MouseInput { pressed, button: RawMouseButton::Other(id) }))
            == Ok::<AppEvent<C>, ()>(
            if pressed { AppEvent::MouseButtonDown(MouseButton::Unknown) } else { AppEvent::MouseButtonUp(MouseButton::Unknown) },
        ),
{
}

} // verus!
