//! Decisions about the window's surface: which texture format it gets, and
//! what happens to a frame after the next surface texture was asked for.
use vstd::prelude::*;
use wgpu::util::TextureFormatExt;

verus! {

#[verifier::external_type_specification]
#[verifier::external_body]
pub struct ExTextureFormat(wgpu::TextureFormat);

/// Whether wgpu maps a texture format to a storage format, that is, whether
/// `wgpu::util::TextureFormatExt::to_storage_format` gives `Some` for it.
/// wgpu answers by a fixed table on the format alone.
pub uninterp spec fn storage_capable_spec(format: wgpu::TextureFormat) -> bool;

/// `wgpu::util::TextureFormatExt::to_storage_format`, tested for `Some`:
/// whether the format can back a storage texture. The answer is named, not
/// stated: it depends on the format alone.
#[verifier::external_body]
fn has_storage_format(format: wgpu::TextureFormat) -> (r: bool)
    ensures
        r == storage_capable_spec(format),
{
    format.to_storage_format().is_some()
}

/// The preferred entry of a list of candidates, given which of them can back
/// a storage texture: the first such candidate, or the first candidate if
/// none can.
pub open spec fn preferred_index(storage_capable: Seq<bool>) -> int {
    if exists|i: int| 0 <= i < storage_capable.len() && storage_capable[i] {
        choose|i: int|
            0 <= i < storage_capable.len() && storage_capable[i] && forall|j: int|
                0 <= j < i ==> !storage_capable[j]
    } else {
        0
    }
}

/// The index of the preferred surface format among candidates of which
/// `storage_capable` tells which can back a storage texture.
pub fn preferred_format_index(storage_capable: &Vec<bool>) -> (r: usize)
    requires
        storage_capable.len() > 0,
    ensures
        r == preferred_index(storage_capable@),
        r < storage_capable.len(),
        storage_capable@[r as int] || forall|j: int|
            0 <= j < storage_capable.len() ==> !storage_capable@[j],
        forall|j: int| 0 <= j < r ==> !storage_capable@[j],
{
    let n: usize = storage_capable.len();
    let mut i: usize = 0;
    while i < n
        invariant
            n == storage_capable.len(),
            i <= n,
            forall|j: int| 0 <= j < i ==> !storage_capable@[j],
        decreases n - i,
    {
        if storage_capable[i] {
            proof {
                let w: int = choose|k: int|
                    0 <= k < storage_capable@.len() && storage_capable@[k] && forall|j: int|
                        0 <= j < k ==> !storage_capable@[j];
                assert(0 <= w < storage_capable@.len() && storage_capable@[w]);
                if w < i {
                } else if w > i {
                    assert(!storage_capable@[i as int]);
                }
            }
            return i;
        }
        i = i + 1;
    }
    0
}

/// Which of the formats can back a storage texture, in order.
pub open spec fn storage_capabilities(formats: Seq<wgpu::TextureFormat>) -> Seq<bool> {
    formats.map_values(|f: wgpu::TextureFormat| storage_capable_spec(f))
}

/// Choose the surface format: the first of the surface's formats that can
/// back a storage texture, or its first format if none can.
pub fn select_surface_format(formats: &Vec<wgpu::TextureFormat>) -> (r: wgpu::TextureFormat)
    requires
        formats.len() > 0,
    ensures
        r == formats@[preferred_index(storage_capabilities(formats@))],
{
    let n: usize = formats.len();
    let mut storage_capable: Vec<bool> = Vec::new();
    let mut i: usize = 0;
    while i < n
        invariant
            n == formats.len(),
            i <= n,
            storage_capable.len() == i,
            forall|j: int| 0 <= j < i ==> storage_capable@[j] == storage_capable_spec(formats@[j]),
        decreases n - i,
    {
        storage_capable.push(has_storage_format(formats[i]));
        i = i + 1;
    }
    assert(storage_capable@ =~= storage_capabilities(formats@));
    let k: usize = preferred_format_index(&storage_capable);
    formats[k]
}

/// What acquiring the next surface texture gave.
#[derive(Debug)]
pub enum SurfaceStatus {
    /// A texture that matches the surface
    Success,
    /// A texture that no longer matches the surface's properties
    Suboptimal,
    /// The acquisition timed out
    Timeout,
    /// The window is occluded
    Occluded,
    /// The surface configuration is outdated
    Outdated,
    /// The surface is lost
    Lost,
    /// A validation error was raised
    Validation,
}

/// What to do with the outcome of acquiring the next surface texture.
#[derive(Debug)]
pub struct FrameAction {
    /// Keep the acquired texture as the current frame (otherwise there is no
    /// current frame)
    pub keep_texture: bool,
    /// Configure the surface again
    pub reconfigure: bool,
}

/// The frame action for an acquisition outcome: a texture is kept when one
/// was acquired, even a suboptimal one (window events reconfigure the
/// surface anyway); an outdated surface is configured again; every other
/// outcome leaves no frame.
pub open spec fn frame_action_of(status: SurfaceStatus) -> FrameAction {
    match status {
        SurfaceStatus::Success | SurfaceStatus::Suboptimal => FrameAction { keep_texture: true, reconfigure: false },
        SurfaceStatus::Outdated => FrameAction { keep_texture: false, reconfigure: true },
        _ => FrameAction { keep_texture: false, reconfigure: false },
    }
}

/// Decide what to do with the outcome of acquiring the next surface texture.
/// A lost surface is not handled.
pub fn frame_action(status: SurfaceStatus) -> (r: FrameAction)
    requires
        !(status is Lost),
    ensures
        r == frame_action_of(status),
{
    match status {
        SurfaceStatus::Success | SurfaceStatus::Suboptimal => FrameAction { keep_texture: true, reconfigure: false },
        SurfaceStatus::Outdated => FrameAction { keep_texture: false, reconfigure: true },
        _ => FrameAction { keep_texture: false, reconfigure: false },
    }
}

/// What happens after each acquisition outcome: a texture that was acquired,
/// matching or suboptimal, is kept without reconfiguring; an outdated
/// surface is configured again and leaves no frame; a timeout, an occluded
/// window or a validation error leaves no frame and changes nothing.
pub proof fn lemma_frame_actions()
    ensures
        frame_action_of(SurfaceStatus::Success) == (FrameAction { keep_texture: true, reconfigure: false }),
        frame_action_of(SurfaceStatus::Suboptimal) == (FrameAction { keep_texture: true, reconfigure: false }),
        frame_action_of(SurfaceStatus::Outdated) == (FrameAction { keep_texture: false, reconfigure: true }),
        frame_action_of(SurfaceStatus::Timeout) == (FrameAction { keep_texture: false, reconfigure: false }),
        frame_action_of(SurfaceStatus::Occluded) == (FrameAction { keep_texture: false, reconfigure: false }),
        frame_action_of(SurfaceStatus::Validation) == (FrameAction { keep_texture: false, reconfigure: false }),
{
}

} // verus!
