//! The user's configuration: defaults, looking bindings up, toggling them, and choosing what to load.

use vstd::prelude::*;

use crate::transform::Transform;

verus! {

/// One hotkey binding: the modifier names (`CONTROL`, `SHIFT`, ...), the key
/// name (`KeyE`, `F5`, ...) and the transformation it triggers.
#[derive(Clone, Debug)]
pub struct HotkeyConfig {
    pub modifiers: Vec<String>,
    pub key: String,
    pub transform: Transform,
}

/// The user's configuration.
#[derive(Clone, Debug)]
pub struct Settings {
    pub hotkeys: Vec<HotkeyConfig>,
    pub settings_hotkey: HotkeyConfig,
    pub restore_clipboard: bool,
    pub clipboard_delay_ms: u64,
}

/// A hotkey binding as plain values.
pub struct HotkeyView {
    pub modifiers: Seq<Seq<char>>,
    pub key: Seq<char>,
    pub transform: Transform,
}

/// The configuration as plain values.
pub struct SettingsView {
    pub hotkeys: Seq<HotkeyView>,
    pub settings_hotkey: HotkeyView,
    pub restore_clipboard: bool,
    pub clipboard_delay_ms: u64,
}

impl View for HotkeyConfig {
    type V = HotkeyView;

    open spec fn view(&self) -> HotkeyView {
        HotkeyView {
            modifiers: self.modifiers.deep_view(),
            key: self.key@,
            transform: self.transform,
        }
    }
}

/// The plain values of a list of bindings.
pub open spec fn hotkeys_view(hs: Seq<HotkeyConfig>) -> Seq<HotkeyView> {
    hs.map_values(|h: HotkeyConfig| h@)
}

impl View for Settings {
    type V = SettingsView;

    open spec fn view(&self) -> SettingsView {
        SettingsView {
            hotkeys: hotkeys_view(self.hotkeys@),
            settings_hotkey: self.settings_hotkey@,
            restore_clipboard: self.restore_clipboard,
            clipboard_delay_ms: self.clipboard_delay_ms,
        }
    }
}

/// A binding to Ctrl+Shift and the key `key`.
pub open spec fn ctrl_shift_binding(key: Seq<char>, t: Transform) -> HotkeyView {
    HotkeyView { modifiers: seq!["CONTROL"@, "SHIFT"@], key, transform: t }
}

/// The configuration used when there is none: Ctrl+Shift+R, E, T, U and C for the
/// Russian layout, the English layout, toggling the layout, toggling the case and
/// cleaning whitespace; Ctrl+Shift+S for the settings screen; the clipboard is not
/// restored and the clipboard delay is 150 ms.
pub open spec fn default_settings() -> SettingsView {
    SettingsView {
        hotkeys: seq![
            ctrl_shift_binding("KeyR"@, Transform::ToRussian),
            ctrl_shift_binding("KeyE"@, Transform::ToEnglish),
            ctrl_shift_binding("KeyT"@, Transform::ToggleLayout),
            ctrl_shift_binding("KeyU"@, Transform::ToggleCase),
            ctrl_shift_binding("KeyC"@, Transform::CleanWhitespace),
        ],
        settings_hotkey: ctrl_shift_binding("KeyS"@, Transform::ToggleLayout),
        restore_clipboard: false,
        clipboard_delay_ms: 150,
    }
}

/// The position of the first binding for `t` in `hs`, if there is one.
pub open spec fn hotkey_position(hs: Seq<HotkeyView>, t: Transform) -> Option<int>
    decreases hs.len(),
{
    if hs.len() == 0 {
        None
    } else if hs[0].transform == t {
        Some(0)
    } else {
        match hotkey_position(hs.drop_first(), t) {
            Some(i) => Some(i + 1),
            None => None,
        }
    }
}

/// The binding that the settings screen adds for `t`: Ctrl+Shift+F.
pub open spec fn added_binding(t: Transform) -> HotkeyView {
    ctrl_shift_binding("KeyF"@, t)
}

/// The configuration after toggling the binding of `t`: its first binding is
/// removed if it has one, else a Ctrl+Shift+F binding for it is added at the end.
pub open spec fn spec_toggle_hotkey(s: SettingsView, t: Transform) -> SettingsView {
    SettingsView {
        hotkeys: match hotkey_position(s.hotkeys, t) {
            Some(i) => s.hotkeys.remove(i),
            None => s.hotkeys.push(added_binding(t)),
        },
        settings_hotkey: s.settings_hotkey,
        restore_clipboard: s.restore_clipboard,
        clipboard_delay_ms: s.clipboard_delay_ms,
    }
}

/// `hotkey_position` finds the first binding for `t`.
pub proof fn lemma_hotkey_position(hs: Seq<HotkeyView>, t: Transform)
    ensures
        match hotkey_position(hs, t) {
            Some(i) => 0 <= i < hs.len() && hs[i].transform == t && forall|j: int|
                0 <= j < i ==> hs[j].transform != t,
            None => forall|j: int| 0 <= j < hs.len() ==> hs[j].transform != t,
        },
    decreases hs.len(),
{
    if hs.len() > 0 {
        lemma_hotkey_position(hs.drop_first(), t);
        match hotkey_position(hs.drop_first(), t) {
            Some(i) => {
                assert forall|j: int| 1 <= j < i + 1 implies hs[j].transform != t by {
                    assert(hs[j] == hs.drop_first()[j - 1]);
                }
            },
            None => {
                assert forall|j: int| 1 <= j < hs.len() implies hs[j].transform != t by {
                    assert(hs[j] == hs.drop_first()[j - 1]);
                }
            },
        }
    }
}

/// Toggling the binding of a transformation that has none twice gives the
/// configuration back.
pub proof fn lemma_toggle_hotkey_twice(s: SettingsView, t: Transform)
    requires
        hotkey_position(s.hotkeys, t) is None,
    ensures
        spec_toggle_hotkey(spec_toggle_hotkey(s, t), t) == s,
{
    let once = spec_toggle_hotkey(s, t);
    lemma_hotkey_position(s.hotkeys, t);
    lemma_hotkey_position(once.hotkeys, t);
    let n = s.hotkeys.len() as int;
    assert(once.hotkeys[n].transform == t);
    assert(forall|j: int| 0 <= j < n ==> once.hotkeys[j] == s.hotkeys[j]);
    assert(hotkey_position(once.hotkeys, t) == Some(n));
    assert(once.hotkeys.remove(n) =~= s.hotkeys);
}

fn ctrl_shift_modifiers() -> (r: Vec<String>)
    ensures
        r.deep_view() == seq!["CONTROL"@, "SHIFT"@],
{
    let mut r: Vec<String> = Vec::new();
    r.push("CONTROL".to_owned());
    r.push("SHIFT".to_owned());
    assert(r.deep_view() =~= seq!["CONTROL"@, "SHIFT"@]);
    r
}

fn ctrl_shift_hotkey(key: &str, transform: Transform) -> (r: HotkeyConfig)
    ensures
        r@ == ctrl_shift_binding(key@, transform),
{
    HotkeyConfig { modifiers: ctrl_shift_modifiers(), key: key.to_owned(), transform }
}

impl Default for Settings {
    /// Ctrl+Shift+R, E, T, U and C for the Russian layout, the English layout,
    /// toggling the layout, toggling the case and cleaning whitespace;
    /// Ctrl+Shift+S for the settings screen; no clipboard restore; a 150 ms delay.
    fn default() -> (r: Settings)
        ensures
            r@ == default_settings(),
    {
        let mut hotkeys: Vec<HotkeyConfig> = Vec::new();
        hotkeys.push(ctrl_shift_hotkey("KeyR", Transform::ToRussian));
        hotkeys.push(ctrl_shift_hotkey("KeyE", Transform::ToEnglish));
        hotkeys.push(ctrl_shift_hotkey("KeyT", Transform::ToggleLayout));
        hotkeys.push(ctrl_shift_hotkey("KeyU", Transform::ToggleCase));
        hotkeys.push(ctrl_shift_hotkey("KeyC", Transform::CleanWhitespace));
        let r = Settings {
            hotkeys,
            settings_hotkey: ctrl_shift_hotkey("KeyS", Transform::ToggleLayout),
            restore_clipboard: false,
            clipboard_delay_ms: 150,
        };
        assert(r@.hotkeys =~= default_settings().hotkeys);
        r
    }
}

/// The position of the first binding for `transform`, if any.
fn hotkey_index(settings: &Settings, transform: Transform) -> (r: Option<usize>)
    ensures
        match r {
            Some(i) => i < settings.hotkeys@.len() && hotkey_position(settings@.hotkeys, transform)
                == Some(i as int),
            None => hotkey_position(settings@.hotkeys, transform) is None,
        },
{
    proof {
        lemma_hotkey_position(settings@.hotkeys, transform);
    }
    let n = settings.hotkeys.len();
    for i in 0..n
        invariant
            n == settings.hotkeys@.len(),
            forall|j: int| 0 <= j < i ==> settings@.hotkeys[j].transform != transform,
            match hotkey_position(settings@.hotkeys, transform) {
                Some(k) => 0 <= k < n && settings@.hotkeys[k].transform == transform
                    && forall|j: int| 0 <= j < k ==> settings@.hotkeys[j].transform != transform,
                None => forall|j: int| 0 <= j < n ==> settings@.hotkeys[j].transform != transform,
            },
    {
        if settings.hotkeys[i].transform == transform {
            assert(settings@.hotkeys[i as int].transform == transform);
            return Some(i);
        }
    }
    None
}

/// The first binding for `transform`, if there is one.
pub fn find_hotkey(settings: &Settings, transform: Transform) -> (r: Option<&HotkeyConfig>)
    ensures
        r is Some == hotkey_position(settings@.hotkeys, transform) is Some,
        r is Some ==> r.unwrap()@ == settings@.hotkeys[hotkey_position(settings@.hotkeys, transform).unwrap()],
{
    match hotkey_index(settings, transform) {
        Some(i) => Some(&settings.hotkeys[i]),
        None => None,
    }
}

/// Removes the first binding for `transform`, or adds a Ctrl+Shift+F binding
/// for it when it has none.
pub fn toggle_hotkey(settings: &mut Settings, transform: Transform)
    ensures
        final(settings)@ == spec_toggle_hotkey(old(settings)@, transform),
{
    match hotkey_index(settings, transform) {
        Some(idx) => {
            let ghost before = settings.hotkeys@;
            settings.hotkeys.remove(idx);
            assert(hotkeys_view(settings.hotkeys@) =~= hotkeys_view(before).remove(idx as int));
        },
        None => {
            let ghost before = settings.hotkeys@;
            let h = HotkeyConfig {
                modifiers: ctrl_shift_modifiers(),
                key: "KeyF".to_owned(),
                transform,
            };
            settings.hotkeys.push(h);
            assert(hotkeys_view(settings.hotkeys@) =~= hotkeys_view(before).push(added_binding(transform)));
        },
    }
}

/// What reading one configuration file gave.
#[derive(Debug)]
pub enum ConfigRead {
    /// There is no file.
    Missing,
    /// The file exists but could not be read.
    Unreadable,
    /// The file was read but is not a valid configuration.
    Invalid,
    /// The file holds this configuration.
    Parsed(Settings),
}

impl Settings {
    /// Chooses the configuration to run with from what the configuration file
    /// (`primary`) and the file of the program's former name (`legacy`, consulted
    /// only when `primary` is missing) gave, and whether to write the result to the
    /// configuration file: a migrated legacy configuration and a first-run default
    /// are saved; an unreadable or invalid file is never overwritten and the
    /// defaults are used instead.
    pub fn from_reads(primary: ConfigRead, legacy: ConfigRead) -> (r: (Settings, bool))
        ensures
            primary matches ConfigRead::Parsed(s) ==> r.0@ == s@ && !r.1,
            (primary is Unreadable || primary is Invalid) ==> r.0@ == default_settings() && !r.1,
            primary is Missing ==> match legacy {
                ConfigRead::Parsed(s) => r.0@ == s@ && r.1,
                ConfigRead::Missing => r.0@ == default_settings() && r.1,
                _ => r.0@ == default_settings() && !r.1,
            },
    {
        match primary {
            ConfigRead::Parsed(s) => (s, false),
            ConfigRead::Unreadable | ConfigRead::Invalid => (Settings::default(), false),
            ConfigRead::Missing => match legacy {
                ConfigRead::Parsed(s) => (s, true),
                ConfigRead::Missing => (Settings::default(), true),
                _ => (Settings::default(), false),
            },
        }
    }
}

} // verus!
