use textfmt::daemon::DaemonEvent;
use textfmt::hotkey::{handle_key, key_to_vk, modifier_bit_of, mods_match, parse_hotkeys, parse_vk, ModifierState, ParsedHotkey};
use textfmt::settings::Settings;
use textfmt::transform::Transform;

fn names(v: &[&str]) -> Vec<String> {
    v.iter().map(|s| s.to_string()).collect()
}

fn released() -> ModifierState {
    ModifierState { ctrl: false, shift: false, alt: false, meta: false }
}

#[test]
fn key_names_map_to_virtual_key_codes() {
    assert_eq!(key_to_vk("KeyA"), Some(0x41));
    assert_eq!(key_to_vk("KeyZ"), Some(0x5A));
    assert_eq!(key_to_vk("Digit0"), Some(0x30));
    assert_eq!(key_to_vk("Digit9"), Some(0x39));
    assert_eq!(key_to_vk("F1"), Some(0x70));
    assert_eq!(key_to_vk("F12"), Some(0x7B));
    assert_eq!(key_to_vk("Space"), Some(0x20));
    assert_eq!(key_to_vk("Enter"), Some(0x0D));
    assert_eq!(key_to_vk("Escape"), Some(0x1B));
    assert_eq!(key_to_vk("Tab"), Some(0x09));
    assert_eq!(key_to_vk("Backspace"), Some(0x08));
    assert_eq!(key_to_vk("Delete"), Some(0x2E));
    assert_eq!(key_to_vk("ArrowUp"), Some(0x26));
    assert_eq!(key_to_vk("ArrowDown"), Some(0x28));
    assert_eq!(key_to_vk("ArrowLeft"), Some(0x25));
    assert_eq!(key_to_vk("ArrowRight"), Some(0x27));
}

#[test]
fn unknown_key_names_have_no_code() {
    assert_eq!(key_to_vk("keya"), None);
    assert_eq!(key_to_vk("F13"), None);
    assert_eq!(key_to_vk(""), None);
}

#[test]
fn modifiers_match_when_all_required_are_held() {
    assert!(mods_match(0, false, false, false, false));
    assert!(mods_match(3, true, true, false, false));
    assert!(mods_match(3, true, true, true, true));
    assert!(!mods_match(3, true, false, false, false));
    assert!(!mods_match(4, true, true, false, true));
    assert!(mods_match(8, false, false, false, true));
    assert!(!mods_match(15, true, true, true, false));
}

#[test]
fn parse_vk_combines_modifier_bits_case_insensitively() {
    assert_eq!(parse_vk(&names(&["ctrl", "Shift"]), "KeyE"), Some((3, 0x45)));
    assert_eq!(parse_vk(&names(&["CONTROL", "SHIFT"]), "KeyR"), Some((3, 0x52)));
    assert_eq!(parse_vk(&names(&["alt"]), "F5"), Some((4, 0x74)));
    assert_eq!(parse_vk(&names(&["Win", "super", "CMD", "meta"]), "Space"), Some((8, 0x20)));
}

#[test]
fn parse_vk_ignores_unknown_modifiers() {
    assert_eq!(parse_vk(&names(&["Hyper", "shift"]), "KeyA"), Some((2, 0x41)));
    assert_eq!(parse_vk(&names(&[]), "KeyA"), Some((0, 0x41)));
}

#[test]
fn parse_vk_rejects_unknown_keys() {
    assert_eq!(parse_vk(&names(&["CONTROL"]), "Key1"), None);
}

#[test]
fn default_settings_give_six_hotkeys() {
    let parsed = parse_hotkeys(&Settings::default());
    assert_eq!(
        parsed,
        vec![
            ParsedHotkey { mods: 3, vk: 0x52, event: DaemonEvent::Transform(Transform::ToRussian) },
            ParsedHotkey { mods: 3, vk: 0x45, event: DaemonEvent::Transform(Transform::ToEnglish) },
            ParsedHotkey { mods: 3, vk: 0x54, event: DaemonEvent::Transform(Transform::ToggleLayout) },
            ParsedHotkey { mods: 3, vk: 0x55, event: DaemonEvent::Transform(Transform::ToggleCase) },
            ParsedHotkey { mods: 3, vk: 0x43, event: DaemonEvent::Transform(Transform::CleanWhitespace) },
            ParsedHotkey { mods: 3, vk: 0x53, event: DaemonEvent::OpenSettings },
        ]
    );
}

#[test]
fn bindings_with_unknown_keys_are_skipped() {
    let mut settings = Settings::default();
    settings.hotkeys[1].key = "NotAKey".to_string();
    settings.settings_hotkey.key = "Nope".to_string();
    let parsed = parse_hotkeys(&settings);
    assert_eq!(parsed.len(), 4);
    assert_eq!(parsed[1].event, DaemonEvent::Transform(Transform::ToggleLayout));
}

#[test]
fn modifier_keys_update_the_state() {
    let hotkeys = parse_hotkeys(&Settings::default());
    let mut state = released();
    assert_eq!(handle_key(&mut state, &hotkeys, 0xA2, true), None);
    assert!(state.ctrl);
    assert_eq!(handle_key(&mut state, &hotkeys, 0x10, true), None);
    assert!(state.shift);
    assert_eq!(handle_key(&mut state, &hotkeys, 0xA5, true), None);
    assert!(state.alt);
    assert_eq!(handle_key(&mut state, &hotkeys, 0x5C, true), None);
    assert!(state.meta);
    assert_eq!(handle_key(&mut state, &hotkeys, 0x11, false), None);
    assert!(!state.ctrl);
    assert_eq!(handle_key(&mut state, &hotkeys, 0xA0, false), None);
    assert!(!state.shift);
}

#[test]
fn hotkey_fires_with_its_modifiers_held() {
    let hotkeys = parse_hotkeys(&Settings::default());
    let mut state = released();
    handle_key(&mut state, &hotkeys, 0xA2, true);
    handle_key(&mut state, &hotkeys, 0xA0, true);
    assert_eq!(
        handle_key(&mut state, &hotkeys, 0x45, true),
        Some(DaemonEvent::Transform(Transform::ToEnglish))
    );
    assert_eq!(handle_key(&mut state, &hotkeys, 0x53, true), Some(DaemonEvent::OpenSettings));
    // releasing the key fires nothing
    assert_eq!(handle_key(&mut state, &hotkeys, 0x45, false), None);
}

#[test]
fn hotkey_does_not_fire_without_its_modifiers() {
    let hotkeys = parse_hotkeys(&Settings::default());
    let mut state = released();
    handle_key(&mut state, &hotkeys, 0xA2, true);
    assert_eq!(handle_key(&mut state, &hotkeys, 0x45, true), None);
    assert_eq!(handle_key(&mut state, &hotkeys, 0x41, true), None);
}

#[test]
fn extra_modifiers_do_not_prevent_a_hotkey() {
    let hotkeys = parse_hotkeys(&Settings::default());
    let mut state = ModifierState { ctrl: true, shift: true, alt: true, meta: false };
    assert_eq!(
        handle_key(&mut state, &hotkeys, 0x52, true),
        Some(DaemonEvent::Transform(Transform::ToRussian))
    );
}

#[test]
fn first_matching_hotkey_wins() {
    let hotkeys = vec![
        ParsedHotkey { mods: 1, vk: 0x41, event: DaemonEvent::Transform(Transform::ToUpper) },
        ParsedHotkey { mods: 1, vk: 0x41, event: DaemonEvent::Transform(Transform::ToLower) },
    ];
    let mut state = ModifierState { ctrl: true, shift: false, alt: false, meta: false };
    assert_eq!(
        handle_key(&mut state, &hotkeys, 0x41, true),
        Some(DaemonEvent::Transform(Transform::ToUpper))
    );
}

#[test]
fn modifier_bits_of_upper_case_names() {
    assert_eq!(modifier_bit_of("CONTROL"), 1);
    assert_eq!(modifier_bit_of("CTRL"), 1);
    assert_eq!(modifier_bit_of("SHIFT"), 2);
    assert_eq!(modifier_bit_of("ALT"), 4);
    assert_eq!(modifier_bit_of("META"), 8);
    assert_eq!(modifier_bit_of("SUPER"), 8);
    assert_eq!(modifier_bit_of("WIN"), 8);
    assert_eq!(modifier_bit_of("CMD"), 8);
    assert_eq!(modifier_bit_of("ctrl"), 0);
    assert_eq!(modifier_bit_of("HYPER"), 0);
}
