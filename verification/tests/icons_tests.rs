use luauncher::gate::{Settings, SettingsLoad};
use luauncher::icons::{get_icon, icon_path_in, keeps_cached_icon};
use luauncher::storage::StorePath;
use std::path::PathBuf;

fn place(parts: &[&str]) -> StorePath {
    StorePath { root: PathBuf::from("/c"), parts: parts.iter().map(|p| p.to_string()).collect() }
}

fn settings(iconupdates: bool) -> SettingsLoad {
    SettingsLoad::Loaded(Settings { dark: true, dev: false, close: true, iconupdates })
}

#[test]
fn an_icon_lies_directly_in_the_icons_directory() {
    assert_eq!(
        icon_path_in(place(&["Luauncher", "icons"]), "game.ico"),
        place(&["Luauncher", "icons", "game.ico"])
    );
    assert_eq!(icon_path_in(place(&["Luauncher", "icons"]), ""), place(&["Luauncher", "icons", ""]));
}

#[test]
fn an_icon_that_is_there_is_found_where_it_lies() {
    assert_eq!(
        get_icon(place(&["Luauncher", "icons", "game.ico"]), true),
        Some(place(&["Luauncher", "icons", "game.ico"]))
    );
}

#[test]
fn an_icon_that_is_not_there_is_not_found() {
    assert_eq!(get_icon(place(&["Luauncher", "icons", "game.ico"]), false), None);
}

#[test]
fn a_cached_icon_is_kept_while_icon_updates_are_off() {
    assert!(keeps_cached_icon(true, &settings(false)));
}

#[test]
fn an_icon_is_made_anew_in_every_other_case() {
    assert!(!keeps_cached_icon(true, &settings(true)));
    assert!(!keeps_cached_icon(false, &settings(false)));
    assert!(!keeps_cached_icon(false, &settings(true)));
    assert!(!keeps_cached_icon(true, &SettingsLoad::Missing));
    assert!(!keeps_cached_icon(true, &SettingsLoad::Failed("EOF".to_string())));
    assert!(!keeps_cached_icon(false, &SettingsLoad::Missing));
}
