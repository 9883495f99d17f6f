use edgarcnp_dev::theme::{
    dark_class_on, load, mode_str, storage_key, system_preference, toggle, ThemeMode,
    ThemePreference,
};

#[test]
fn toggle_flips_the_mode() {
    assert_eq!(toggle(ThemeMode::Dark), ThemeMode::Light);
    assert_eq!(toggle(ThemeMode::Light), ThemeMode::Dark);
}

#[test]
fn toggle_twice_is_identity() {
    assert_eq!(toggle(toggle(ThemeMode::Dark)), ThemeMode::Dark);
    assert_eq!(toggle(toggle(ThemeMode::Light)), ThemeMode::Light);
}

#[test]
fn load_accepts_exactly_the_two_tags() {
    assert_eq!(load(Some("dark")), Some(ThemeMode::Dark));
    assert_eq!(load(Some("light")), Some(ThemeMode::Light));
}

#[test]
fn load_rejects_unknown_values() {
    assert_eq!(load(Some("blue")), None);
    assert_eq!(load(Some("")), None);
    assert_eq!(load(Some("Dark")), None);
    assert_eq!(load(Some("dark ")), None);
    assert_eq!(load(None), None);
}

#[test]
fn init_prefers_stored_value() {
    assert_eq!(ThemePreference::init(Some("light")).mode, ThemeMode::Light);
    assert_eq!(ThemePreference::init(Some("dark")).mode, ThemeMode::Dark);
}

#[test]
fn init_falls_back_to_dark() {
    assert_eq!(ThemePreference::init(None).mode, ThemeMode::Dark);
    assert_eq!(ThemePreference::init(Some("blue")).mode, ThemeMode::Dark);
}

#[test]
fn failed_persist_keeps_the_toggled_mode() {
    let mut pref = ThemePreference::init(Some("dark"));
    let next = pref.toggle();
    assert_eq!(next, ThemeMode::Light);
    pref.note_persist_outcome(false);
    assert_eq!(pref.mode, ThemeMode::Light);
    assert!(!dark_class_on(pref.mode));
}

#[test]
fn successful_persist_also_keeps_the_mode() {
    let mut pref = ThemePreference::init(Some("light"));
    let next = pref.toggle();
    assert_eq!(next, ThemeMode::Dark);
    pref.note_persist_outcome(true);
    assert_eq!(pref.mode, ThemeMode::Dark);
    assert!(dark_class_on(pref.mode));
}

#[test]
fn persisted_tag_round_trips_through_load() {
    assert_eq!(load(Some(mode_str(ThemeMode::Dark))), Some(ThemeMode::Dark));
    assert_eq!(load(Some(mode_str(ThemeMode::Light))), Some(ThemeMode::Light));
}

#[test]
fn storage_key_is_fixed() {
    assert_eq!(storage_key(), "edgarcnp-theme");
}

#[test]
fn system_preference_maps_the_media_query() {
    assert_eq!(system_preference(true), ThemeMode::Dark);
    assert_eq!(system_preference(false), ThemeMode::Light);
}
