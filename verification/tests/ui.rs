use textfmt::settings::{HotkeyConfig, Settings};
use textfmt::transform::Transform;
use textfmt::ui::{binding_text, hotkey_label, settings_transforms, summary_line, ui_step, UiKey};

#[test]
fn the_screen_lists_every_transform_in_order() {
    assert_eq!(
        settings_transforms(),
        vec![
            Transform::ToRussian,
            Transform::ToEnglish,
            Transform::ToggleLayout,
            Transform::ToggleCase,
            Transform::ToUpper,
            Transform::ToLower,
            Transform::TitleCase,
            Transform::CleanWhitespace,
            Transform::Reverse,
            Transform::ToCamelCase,
            Transform::ToSnakeCase,
        ]
    );
}

#[test]
fn up_and_down_stay_within_the_list() {
    let mut s = Settings::default();
    let ts = settings_transforms();
    assert_eq!(ui_step(&mut s, &ts, 0, UiKey::Up), (0, false));
    assert_eq!(ui_step(&mut s, &ts, 3, UiKey::Up), (2, false));
    assert_eq!(ui_step(&mut s, &ts, 3, UiKey::Down), (4, false));
    assert_eq!(ui_step(&mut s, &ts, 10, UiKey::Down), (10, false));
    assert_eq!(ui_step(&mut s, &ts, 5, UiKey::Other), (5, false));
}

#[test]
fn quit_asks_to_save_and_close() {
    let mut s = Settings::default();
    let ts = settings_transforms();
    assert_eq!(ui_step(&mut s, &ts, 4, UiKey::Quit), (4, true));
    assert_eq!(s.hotkeys.len(), 5);
}

#[test]
fn enter_toggles_the_selected_hotkey() {
    let mut s = Settings::default();
    let ts = settings_transforms();
    assert_eq!(ui_step(&mut s, &ts, 0, UiKey::Enter), (0, false));
    assert_eq!(s.hotkeys.len(), 4);
    assert!(s.hotkeys.iter().all(|h| h.transform != Transform::ToRussian));
    assert_eq!(ui_step(&mut s, &ts, 8, UiKey::Enter), (8, false));
    assert_eq!(s.hotkeys.last().unwrap().transform, Transform::Reverse);
    assert_eq!(s.hotkeys.last().unwrap().key, "KeyF");
}

#[test]
fn hotkey_labels() {
    let s = Settings::default();
    assert_eq!(hotkey_label(&s, Transform::ToRussian), "CONTROL+SHIFT+KeyR");
    assert_eq!(hotkey_label(&s, Transform::ToUpper), "—");
}

#[test]
fn binding_text_joins_with_plus() {
    let h = HotkeyConfig { modifiers: vec![], key: "F5".to_string(), transform: Transform::Reverse };
    assert_eq!(binding_text(&h), "+F5");
    let h = HotkeyConfig {
        modifiers: vec!["ALT".to_string()],
        key: "KeyQ".to_string(),
        transform: Transform::Reverse,
    };
    assert_eq!(binding_text(&h), "ALT+KeyQ");
}

#[test]
fn start_up_summary_line() {
    let s = Settings::default();
    assert_eq!(summary_line(&s.hotkeys[0]), "  CONTROL+SHIFT+KeyR Russian layout");
    assert_eq!(summary_line(&s.hotkeys[4]), "  CONTROL+SHIFT+KeyC Clean spaces");
}
