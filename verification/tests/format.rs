use wgpu::TextureFormat;
use yawngf::format::{preferred_index, select_format, srgb_flags};

#[test]
fn select_format_takes_the_srgb_entry_behind_a_plain_one() {
    let formats = vec![TextureFormat::Bgra8Unorm, TextureFormat::Bgra8UnormSrgb];
    assert_eq!(select_format(&formats), TextureFormat::Bgra8UnormSrgb);
}

#[test]
fn select_format_takes_the_first_of_several_srgb_entries() {
    let formats = vec![
        TextureFormat::Bgra8Unorm,
        TextureFormat::Rgba8Unorm,
        TextureFormat::Rgba8UnormSrgb,
        TextureFormat::Bgra8UnormSrgb,
    ];
    assert_eq!(select_format(&formats), TextureFormat::Rgba8UnormSrgb);
}

#[test]
fn select_format_keeps_a_leading_srgb_entry() {
    let formats = vec![
        TextureFormat::Bgra8UnormSrgb,
        TextureFormat::Rgba8UnormSrgb,
        TextureFormat::Bgra8Unorm,
    ];
    assert_eq!(select_format(&formats), TextureFormat::Bgra8UnormSrgb);
}

#[test]
fn select_format_falls_back_to_the_head_without_srgb() {
    let formats = vec![
        TextureFormat::Rgba16Float,
        TextureFormat::Bgra8Unorm,
        TextureFormat::Rgba8Unorm,
    ];
    assert_eq!(select_format(&formats), TextureFormat::Rgba16Float);
}

#[test]
fn select_format_of_a_single_entry_is_that_entry() {
    assert_eq!(select_format(&vec![TextureFormat::Rgba8Unorm]), TextureFormat::Rgba8Unorm);
    assert_eq!(
        select_format(&vec![TextureFormat::Rgba8UnormSrgb]),
        TextureFormat::Rgba8UnormSrgb
    );
}

#[test]
fn select_format_tells_compressed_srgb_formats() {
    let formats = vec![
        TextureFormat::Bc1RgbaUnorm,
        TextureFormat::Bc7RgbaUnormSrgb,
        TextureFormat::Bgra8UnormSrgb,
    ];
    assert_eq!(select_format(&formats), TextureFormat::Bc7RgbaUnormSrgb);
}

#[test]
fn srgb_flags_follow_the_list() {
    let formats = vec![
        TextureFormat::Bgra8Unorm,
        TextureFormat::Bgra8UnormSrgb,
        TextureFormat::Rgba8Unorm,
        TextureFormat::Rgba8UnormSrgb,
    ];
    assert_eq!(srgb_flags(&formats), vec![false, true, false, true]);
}

#[test]
fn srgb_flags_of_an_empty_list_are_empty() {
    let none: Vec<bool> = Vec::new();
    assert_eq!(srgb_flags(&Vec::new()), none);
}

#[test]
fn preferred_index_is_the_first_set_flag() {
    assert_eq!(preferred_index(&vec![true]), 0);
    assert_eq!(preferred_index(&vec![false, true]), 1);
    assert_eq!(preferred_index(&vec![false, true, true]), 1);
    assert_eq!(preferred_index(&vec![false, false, false, true]), 3);
    assert_eq!(preferred_index(&vec![true, false, true]), 0);
}

#[test]
fn preferred_index_is_zero_without_a_set_flag() {
    assert_eq!(preferred_index(&vec![false]), 0);
    assert_eq!(preferred_index(&vec![false, false, false]), 0);
}
