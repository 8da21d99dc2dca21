//! The settings screen: its rows, key handling and the texts it shows.

use vstd::prelude::*;

use crate::settings::{hotkey_position, spec_toggle_hotkey, toggle_hotkey, find_hotkey, HotkeyConfig, HotkeyView, Settings, SettingsView};
use crate::text::{join, join_with, push_char, push_str};
use crate::transform::{spec_name, Transform};

verus! {

/// The transformations in the order the settings screen lists them.
pub open spec fn listed_transforms() -> Seq<Transform> {
    seq![
        Transform::ToRussian,
        Transform::ToEnglish,
        Transform::ToggleLayout,
        Transform::ToggleCase,
        Transform::ToUpper,
        Transform::ToLower,
        Transform::TitleCase,
        Transform::CleanWhitespace,
        Transform::Reverse,
        Transform::ToCamelCase,
        Transform::ToSnakeCase,
    ]
}

/// The transformations in the order the settings screen lists them.
pub fn settings_transforms() -> (r: Vec<Transform>)
    ensures
        r@ == listed_transforms(),
{
    let r = vec![
        Transform::ToRussian,
        Transform::ToEnglish,
        Transform::ToggleLayout,
        Transform::ToggleCase,
        Transform::ToUpper,
        Transform::ToLower,
        Transform::TitleCase,
        Transform::CleanWhitespace,
        Transform::Reverse,
        Transform::ToCamelCase,
        Transform::ToSnakeCase,
    ];
    assert(r@ =~= listed_transforms());
    r
}

/// A key press on the settings screen.
#[derive(Clone, Copy, Debug, PartialEq, Eq, Structural)]
pub enum UiKey {
    /// `q` or Escape: save and leave.
    Quit,
    Up,
    Down,
    /// Enter: toggle the hotkey of the selected transformation.
    Enter,
    /// Any other key, which the screen ignores.
    Other,
}

/// The selected row after `key`, on a list of `len` rows.
pub open spec fn next_selected(selected: int, len: int, key: UiKey) -> int {
    match key {
        UiKey::Up => if selected > 0 {
            selected - 1
        } else {
            selected
        },
        UiKey::Down => if selected < len - 1 {
            selected + 1
        } else {
            selected
        },
        _ => selected,
    }
}

/// Handles one key press on the settings screen, whose rows are `transforms`
/// and whose selected row is `selected`: Up and Down move the selection within
/// the list, Enter toggles the hotkey of the selected transformation, and Quit
/// asks the screen to save and close. Returns the new selection and whether to quit.
pub fn ui_step(settings: &mut Settings, transforms: &Vec<Transform>, selected: usize, key: UiKey) -> (r: (
    usize,
    bool,
))
    requires
        key == UiKey::Down ==> transforms@.len() > 0,
        key == UiKey::Enter ==> selected < transforms@.len(),
    ensures
        r.0 == next_selected(selected as int, transforms@.len() as int, key),
        r.1 == (key == UiKey::Quit),
        final(settings)@ == if key == UiKey::Enter {
            spec_toggle_hotkey(old(settings)@, transforms@[selected as int])
        } else {
            old(settings)@
        },
{
    match key {
        UiKey::Quit => (selected, true),
        UiKey::Up => {
            let mut s = selected;
            if s > 0 {
                s -= 1;
            }
            (s, false)
        },
        UiKey::Down => {
            let mut s = selected;
            if s < transforms.len() - 1 {
                s += 1;
            }
            (s, false)
        },
        UiKey::Enter => {
            let t = transforms[selected];
            toggle_hotkey(settings, t);
            (selected, false)
        },
        UiKey::Other => (selected, false),
    }
}

/// Moving the selection keeps it on a row of the list.
pub proof fn lemma_selection_stays_in_list(selected: int, len: int, key: UiKey)
    requires
        0 <= selected < len,
    ensures
        0 <= next_selected(selected, len, key) < len,
{
}

/// Moving up and then down, or down and then up, returns to the same row away
/// from the ends of the list; at the top Up stays, at the bottom Down stays.
pub proof fn lemma_up_and_down_undo_each_other(selected: int, len: int)
    requires
        0 <= selected < len,
    ensures
        selected > 0 ==> next_selected(selected, len, UiKey::Up) == selected - 1,
        selected < len - 1 ==> next_selected(selected, len, UiKey::Down) == selected + 1,
        selected == 0 ==> next_selected(selected, len, UiKey::Up) == 0,
        selected == len - 1 ==> next_selected(selected, len, UiKey::Down) == len - 1,
        selected > 0 ==> next_selected(next_selected(selected, len, UiKey::Up), len, UiKey::Down) == selected,
        selected < len - 1 ==> next_selected(next_selected(selected, len, UiKey::Down), len, UiKey::Up)
            == selected,
        next_selected(selected, len, UiKey::Enter) == selected,
        next_selected(selected, len, UiKey::Quit) == selected,
        next_selected(selected, len, UiKey::Other) == selected,
{
}

/// How a binding is written: its modifiers and key joined by `+`.
pub open spec fn binding_label(h: HotkeyView) -> Seq<char> {
    join(h.modifiers, seq!['+']) + seq!['+'] + h.key
}

/// What the settings screen shows in the hotkey column for `t`: its first
/// binding, or a dash when it has none.
pub open spec fn spec_hotkey_label(s: SettingsView, t: Transform) -> Seq<char> {
    match hotkey_position(s.hotkeys, t) {
        Some(i) => binding_label(s.hotkeys[i]),
        None => seq!['—'],
    }
}

/// The text of a binding: its modifiers and key joined by `+`.
pub fn binding_text(h: &HotkeyConfig) -> (r: String)
    ensures
        r@ == binding_label(h@),
{
    let mut out = join_with(&h.modifiers, '+');
    push_char(&mut out, '+');
    push_str(&mut out, h.key.as_str());
    out
}

/// What the settings screen shows in the hotkey column for `transform`.
pub fn hotkey_label(settings: &Settings, transform: Transform) -> (r: String)
    ensures
        r@ == spec_hotkey_label(settings@, transform),
{
    match find_hotkey(settings, transform) {
        Some(h) => binding_text(h),
        None => {
            let mut out = String::new();
            push_char(&mut out, '—');
            out
        },
    }
}

/// The line that the daemon prints for a binding at start-up: two spaces, the
/// binding, a space and the name of its transformation.
pub open spec fn spec_summary_line(h: HotkeyView) -> Seq<char> {
    seq![' ', ' '] + binding_label(h) + seq![' '] + spec_name(h.transform)
}

/// The line that the daemon prints for a binding at start-up.
pub fn summary_line(h: &HotkeyConfig) -> (r: String)
    ensures
        r@ == spec_summary_line(h@),
{
    let mut out = String::new();
    push_char(&mut out, ' ');
    push_char(&mut out, ' ');
    let b = binding_text(h);
    push_str(&mut out, b.as_str());
    push_char(&mut out, ' ');
    push_str(&mut out, h.transform.name());
    out
}

} // verus!
