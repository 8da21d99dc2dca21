use textfmt::settings::{find_hotkey, toggle_hotkey, ConfigRead, HotkeyConfig, Settings};
use textfmt::transform::Transform;

fn binding(h: &HotkeyConfig) -> (Vec<String>, String, Transform) {
    (h.modifiers.clone(), h.key.clone(), h.transform)
}

fn bindings(s: &Settings) -> Vec<(Vec<String>, String, Transform)> {
    s.hotkeys.iter().map(binding).collect()
}

fn ctrl_shift(key: &str, t: Transform) -> (Vec<String>, String, Transform) {
    (vec!["CONTROL".to_string(), "SHIFT".to_string()], key.to_string(), t)
}

#[test]
fn default_settings() {
    let s = Settings::default();
    assert_eq!(
        bindings(&s),
        vec![
            ctrl_shift("KeyR", Transform::ToRussian),
            ctrl_shift("KeyE", Transform::ToEnglish),
            ctrl_shift("KeyT", Transform::ToggleLayout),
            ctrl_shift("KeyU", Transform::ToggleCase),
            ctrl_shift("KeyC", Transform::CleanWhitespace),
        ]
    );
    assert_eq!(binding(&s.settings_hotkey), ctrl_shift("KeyS", Transform::ToggleLayout));
    assert!(!s.restore_clipboard);
    assert_eq!(s.clipboard_delay_ms, 150);
}

#[test]
fn find_hotkey_returns_the_first_binding() {
    let mut s = Settings::default();
    s.hotkeys.push(HotkeyConfig {
        modifiers: vec!["ALT".to_string()],
        key: "KeyX".to_string(),
        transform: Transform::ToEnglish,
    });
    let h = find_hotkey(&s, Transform::ToEnglish).unwrap();
    assert_eq!(binding(h), ctrl_shift("KeyE", Transform::ToEnglish));
    assert!(find_hotkey(&s, Transform::Reverse).is_none());
}

#[test]
fn toggle_hotkey_removes_an_existing_binding() {
    let mut s = Settings::default();
    toggle_hotkey(&mut s, Transform::ToEnglish);
    assert_eq!(
        bindings(&s),
        vec![
            ctrl_shift("KeyR", Transform::ToRussian),
            ctrl_shift("KeyT", Transform::ToggleLayout),
            ctrl_shift("KeyU", Transform::ToggleCase),
            ctrl_shift("KeyC", Transform::CleanWhitespace),
        ]
    );
}

#[test]
fn toggle_hotkey_adds_ctrl_shift_f_for_a_missing_binding() {
    let mut s = Settings::default();
    toggle_hotkey(&mut s, Transform::Reverse);
    assert_eq!(s.hotkeys.len(), 6);
    assert_eq!(binding(&s.hotkeys[5]), ctrl_shift("KeyF", Transform::Reverse));
}

#[test]
fn toggling_a_missing_binding_twice_gives_the_settings_back() {
    let mut s = Settings::default();
    let before = bindings(&s);
    toggle_hotkey(&mut s, Transform::ToSnakeCase);
    toggle_hotkey(&mut s, Transform::ToSnakeCase);
    assert_eq!(bindings(&s), before);
    assert_eq!(binding(&s.settings_hotkey), ctrl_shift("KeyS", Transform::ToggleLayout));
}

#[test]
fn toggle_hotkey_keeps_the_other_fields() {
    let mut s = Settings::default();
    s.restore_clipboard = true;
    s.clipboard_delay_ms = 7;
    toggle_hotkey(&mut s, Transform::ToRussian);
    assert!(s.restore_clipboard);
    assert_eq!(s.clipboard_delay_ms, 7);
    assert_eq!(binding(&s.settings_hotkey), ctrl_shift("KeyS", Transform::ToggleLayout));
}

fn custom() -> Settings {
    let mut s = Settings::default();
    s.clipboard_delay_ms = 42;
    s
}

#[test]
fn a_parsed_configuration_is_used_as_it_is() {
    let (s, save) = Settings::from_reads(ConfigRead::Parsed(custom()), ConfigRead::Missing);
    assert_eq!(s.clipboard_delay_ms, 42);
    assert!(!save);
}

#[test]
fn a_broken_configuration_gives_defaults_without_saving() {
    let (s, save) = Settings::from_reads(ConfigRead::Invalid, ConfigRead::Parsed(custom()));
    assert_eq!(s.clipboard_delay_ms, 150);
    assert!(!save);
    let (s, save) = Settings::from_reads(ConfigRead::Unreadable, ConfigRead::Missing);
    assert_eq!(s.clipboard_delay_ms, 150);
    assert!(!save);
}

#[test]
fn a_legacy_configuration_is_migrated() {
    let (s, save) = Settings::from_reads(ConfigRead::Missing, ConfigRead::Parsed(custom()));
    assert_eq!(s.clipboard_delay_ms, 42);
    assert!(save);
}

#[test]
fn a_broken_legacy_configuration_gives_defaults_without_saving() {
    let (s, save) = Settings::from_reads(ConfigRead::Missing, ConfigRead::Invalid);
    assert_eq!(s.clipboard_delay_ms, 150);
    assert!(!save);
    let (_, save) = Settings::from_reads(ConfigRead::Missing, ConfigRead::Unreadable);
    assert!(!save);
}

#[test]
fn the_first_run_saves_the_defaults() {
    let (s, save) = Settings::from_reads(ConfigRead::Missing, ConfigRead::Missing);
    assert_eq!(s.hotkeys.len(), 5);
    assert!(save);
}
