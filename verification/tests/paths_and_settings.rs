//! Tests of the photo filename conventions and the default settings.

use directory_layout::models::{Settings, default_theme};
use directory_layout::photo_paths::{
    get_full_resolution_path, get_thumbnail_path, photo_variant_candidates,
};

#[test]
fn full_resolution_sibling_keeps_directory_and_stem() {
    assert_eq!(get_full_resolution_path("families/photo.jpg"), "families/photo_full.jpg");
    assert_eq!(get_full_resolution_path("a/b/c.png"), "a/b/c_full.jpg");
}

#[test]
fn thumbnail_sibling_keeps_directory_and_stem() {
    assert_eq!(get_thumbnail_path("members/m1.jpg"), "members/m1_thumb.jpg");
    assert_eq!(get_thumbnail_path("logo.webp"), "logo_thumb.jpg");
}

#[test]
fn variant_of_path_without_extension() {
    assert_eq!(get_full_resolution_path("families/photo"), "families/photo_full.jpg");
}

#[test]
fn variant_of_multi_dot_name_drops_only_last_extension() {
    assert_eq!(get_full_resolution_path("families/a.b.jpg"), "families/a.b_full.jpg");
}

#[test]
fn hidden_file_keeps_its_whole_name_as_stem() {
    assert_eq!(get_full_resolution_path(".jpg"), ".jpg_full.jpg");
    assert_eq!(get_full_resolution_path("dir/.config"), "dir/.config_full.jpg");
}

#[test]
fn dot_in_directory_does_not_end_the_stem() {
    assert_eq!(get_full_resolution_path("v1.0/photo"), "v1.0/photo_full.jpg");
}

#[test]
fn candidates_prefer_print_quality_then_base() {
    let candidates = photo_variant_candidates("families/photo.jpg");
    assert_eq!(candidates.len(), 2);
    assert_eq!(candidates[0], "families/photo_full.jpg");
    assert_eq!(candidates[1], "families/photo.jpg");
}

#[test]
fn settings_default_values() {
    let s = Settings::default();
    assert_eq!(s.church_name, "Our Church");
    assert_eq!(s.church_logo_path, None);
    assert_eq!(s.theme, "system");
    assert_eq!(s.default_layout, "grid");
    assert_eq!(s.page_size, "letter");
    assert!(s.include_photos);
    assert!(s.include_contact_info);
    assert!(s.include_address);
}

#[test]
fn theme_default_is_system() {
    assert_eq!(default_theme(), "system");
}
