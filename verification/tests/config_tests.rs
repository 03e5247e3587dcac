use termusic::layout::{viuer_support, ConfigEditorLayout, TermusicLayout, ViuerSupported};
use termusic::path::get_full_path_from_config;

#[test]
fn viuer_support_prefers_kitty() {
    assert_eq!(viuer_support(true, true), ViuerSupported::Kitty);
    assert_eq!(viuer_support(true, false), ViuerSupported::Kitty);
    assert_eq!(viuer_support(false, true), ViuerSupported::ITerm);
    assert_eq!(viuer_support(false, false), ViuerSupported::NotSupported);
}

#[test]
fn layout_values_compare_by_variant() {
    assert_eq!(TermusicLayout::TreeView, TermusicLayout::TreeView);
    assert_ne!(TermusicLayout::DataBase, TermusicLayout::Podcast);
    let page = ConfigEditorLayout::Color;
    assert_eq!(page.clone(), ConfigEditorLayout::Color);
}

#[test]
fn absolute_music_dir_is_kept_verbatim() {
    let dirs = vec![String::from("/srv/music")];
    let full = get_full_path_from_config(&dirs, &None);
    assert_eq!(full, "/srv/music");
}

#[test]
fn cli_music_dir_overrides_the_configured_one() {
    let dirs = vec![String::from("/srv/music")];
    let cli = Some(String::from("/mnt/other"));
    let full = get_full_path_from_config(&dirs, &cli);
    assert_eq!(full, "/mnt/other");
}

#[test]
fn no_configured_dir_gives_the_empty_path() {
    let dirs: Vec<String> = Vec::new();
    let full = get_full_path_from_config(&dirs, &None);
    assert_eq!(full, "");
}

#[test]
fn unresolvable_tilde_user_form_is_kept_verbatim() {
    let dirs = vec![String::from("~nosuchuser/music")];
    let full = get_full_path_from_config(&dirs, &None);
    assert_eq!(full, "~nosuchuser/music");
}

#[test]
fn leading_tilde_is_expanded_when_a_home_directory_exists() {
    let dirs = vec![String::from("~/music")];
    let full = get_full_path_from_config(&dirs, &None);
    // With a home directory the tilde is replaced; without one the input
    // comes back unchanged. Either way the suffix after the tilde stays.
    assert!(full.ends_with("/music"));
    if full != "~/music" {
        assert!(!full.starts_with('~'));
    }
}
