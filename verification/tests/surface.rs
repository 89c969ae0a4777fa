use boids::surface::{choose_format, preferred_position, FRAME_LATENCY};
use wgpu::TextureFormat;

#[test]
fn no_position_among_no_formats() {
    assert_eq!(preferred_position(&vec![]), None);
}

#[test]
fn first_set_flag_is_preferred() {
    assert_eq!(preferred_position(&vec![true]), Some(0));
    assert_eq!(preferred_position(&vec![false, true]), Some(1));
    assert_eq!(preferred_position(&vec![false, true, true]), Some(1));
    assert_eq!(preferred_position(&vec![false, false, false, true]), Some(3));
    assert_eq!(preferred_position(&vec![true, true]), Some(0));
}

#[test]
fn first_position_where_no_flag_is_set() {
    assert_eq!(preferred_position(&vec![false]), Some(0));
    assert_eq!(preferred_position(&vec![false, false, false]), Some(0));
}

#[test]
fn no_format_among_none() {
    assert_eq!(choose_format(&vec![]), None);
}

#[test]
fn first_srgb_format_is_chosen() {
    let formats = vec![
        TextureFormat::Bgra8Unorm,
        TextureFormat::Rgba8UnormSrgb,
        TextureFormat::Bgra8UnormSrgb,
    ];
    assert_eq!(choose_format(&formats), Some(TextureFormat::Rgba8UnormSrgb));
    let formats = vec![TextureFormat::Bgra8UnormSrgb, TextureFormat::Rgba8Unorm];
    assert_eq!(choose_format(&formats), Some(TextureFormat::Bgra8UnormSrgb));
    let formats = vec![
        TextureFormat::Rgba16Float,
        TextureFormat::Rgb10a2Unorm,
        TextureFormat::Bgra8UnormSrgb,
    ];
    assert_eq!(choose_format(&formats), Some(TextureFormat::Bgra8UnormSrgb));
}

#[test]
fn first_format_where_none_is_srgb() {
    let formats = vec![TextureFormat::Bgra8Unorm, TextureFormat::Rgba8Unorm];
    assert_eq!(choose_format(&formats), Some(TextureFormat::Bgra8Unorm));
    let formats = vec![TextureFormat::Rgba16Float];
    assert_eq!(choose_format(&formats), Some(TextureFormat::Rgba16Float));
}

#[test]
fn two_frames_may_wait() {
    assert_eq!(FRAME_LATENCY, 2);
}
