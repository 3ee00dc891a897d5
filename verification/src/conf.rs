//! App configuration.
use vstd::prelude::*;

verus! {

#[verifier::external_type_specification]
#[verifier::external_body]
pub struct ExBackends(wgpu::Backends);

/// `wgpu::Backends::all()`, the set of every graphics API that wgpu knows.
/// The value is opaque here: nothing is stated of which flags it holds.
#[verifier::external_body]
fn all_backends() -> wgpu::Backends {
    wgpu::Backends::all()
}

/// App configuration
#[derive(Debug)]
pub struct Config {
    /// The width of the window
    pub width: u32,
    /// The height of the window
    pub height: u32,
    /// The graphics backends to use
    pub backend: wgpu::Backends,
    /// Title to use
    pub title: String,
    /// Whether to open the app in fullscreen
    pub fullscreen: bool,
    /// Whether the user can resize the window
    pub resizable: bool,
}

impl Clone for Config {
    /// A copy of every field.
    fn clone(&self) -> (r: Self)
        ensures
            r.width == self.width,
            r.height == self.height,
            r.backend == self.backend,
            r.title@ == self.title@,
            r.fullscreen == self.fullscreen,
            r.resizable == self.resizable,
    {
        Config {
            width: self.width,
            height: self.height,
            backend: self.backend,
            title: self.title.clone(),
            fullscreen: self.fullscreen,
            resizable: self.resizable,
        }
    }
}

impl Default for Config {
    /// A resizable 512 by 512 window titled "Window", not fullscreen, on
    /// every graphics backend.
    fn default() -> (r: Self)
        ensures
            r.width == 512,
            r.height == 512,
            r.title@ == "Window"@,
            r.resizable,
            !r.fullscreen,
    {
        Self {
            width: 512,
            height: 512,
            backend: all_backends(),
            title: "Window".to_owned(),
            resizable: true,
            fullscreen: false,
        }
    }
}

} // verus!
