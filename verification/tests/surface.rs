use wgpu::TextureFormat;
use winpls::{SurfaceStatus, frame_action, preferred_format_index, select_surface_format};

#[test]
fn preferred_index_is_first_capable() {
    assert_eq!(preferred_format_index(&vec![false, true, true]), 1);
    assert_eq!(preferred_format_index(&vec![true, false]), 0);
    assert_eq!(preferred_format_index(&vec![false, false, false, true]), 3);
}

#[test]
fn preferred_index_falls_back_to_first() {
    assert_eq!(preferred_format_index(&vec![false, false]), 0);
    assert_eq!(preferred_format_index(&vec![false]), 0);
}

#[test]
fn select_prefers_storage_capable_format() {
    let formats = vec![TextureFormat::Bgra8UnormSrgb, TextureFormat::Bgra8Unorm];
    assert_eq!(select_surface_format(&formats), TextureFormat::Bgra8Unorm);
    let formats = vec![TextureFormat::Rgba8UnormSrgb, TextureFormat::Bgra8UnormSrgb, TextureFormat::Rgba8Unorm];
    assert_eq!(select_surface_format(&formats), TextureFormat::Rgba8Unorm);
}

#[test]
fn select_falls_back_to_first_format() {
    let formats = vec![TextureFormat::Bgra8UnormSrgb, TextureFormat::Rgba8UnormSrgb];
    assert_eq!(select_surface_format(&formats), TextureFormat::Bgra8UnormSrgb);
}

#[test]
fn acquired_texture_is_kept() {
    let a = frame_action(SurfaceStatus::Success);
    assert!(a.keep_texture && !a.reconfigure);
    let a = frame_action(SurfaceStatus::Suboptimal);
    assert!(a.keep_texture && !a.reconfigure);
}

#[test]
fn outdated_surface_is_reconfigured() {
    let a = frame_action(SurfaceStatus::Outdated);
    assert!(!a.keep_texture && a.reconfigure);
}

#[test]
fn other_outcomes_skip_the_frame() {
    for s in [SurfaceStatus::Timeout, SurfaceStatus::Occluded, SurfaceStatus::Validation] {
        let a = frame_action(s);
        assert!(!a.keep_texture && !a.reconfigure);
    }
}
