//! A small single-window application framework on top of `winit` and `wgpu`.
//!
//! This crate holds the decisions of the framework: how window events become
//! application events, how the app's lifecycle reacts to the callbacks of the
//! event loop, which surface format the window gets and what happens after a
//! frame was asked for, what the default configuration is, and how file
//! contents are decoded into text.
pub mod conf;
pub mod event;
pub mod fs;
pub mod input;
pub mod lifecycle;
pub mod surface;

pub use conf::Config;
pub use event::{AppEvent, WindowInput};
pub use fs::{FSError, FSResult, read_string};
pub use input::{MouseButton, PhysicalKey, RawMouseButton, keycode_from_physical_key};
pub use lifecycle::{Callback, Effect, Lifecycle, LifecycleState};
pub use surface::{
    FrameAction, SurfaceStatus, frame_action, preferred_format_index, select_surface_format,
};
