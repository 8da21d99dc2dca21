//! Parsing hotkey bindings and matching key presses against them, as the keyboard hook does.

use vstd::prelude::*;

use crate::daemon::DaemonEvent;
use crate::settings::{HotkeyView, Settings, SettingsView};
use crate::text::{str_eq, str_to_upper, str_upper};

verus! {

/// A hotkey as the keyboard hook matches it: a set of modifier bits
/// (1 Ctrl, 2 Shift, 4 Alt, 8 Meta), a virtual-key code and the event it sends.
#[derive(Clone, Copy, Debug, PartialEq, Eq, Structural)]
pub struct ParsedHotkey {
    pub mods: u32,
    pub vk: u32,
    pub event: DaemonEvent,
}

/// Which modifier keys are held down.
#[derive(Clone, Copy, Debug, PartialEq, Eq, Structural)]
pub struct ModifierState {
    pub ctrl: bool,
    pub shift: bool,
    pub alt: bool,
    pub meta: bool,
}

/// The four modifier keys the hook tracks.
#[derive(Clone, Copy, Debug, PartialEq, Eq, Structural)]
pub enum ModifierKey {
    Ctrl,
    Shift,
    Alt,
    Meta,
}

/// Each modifier that `mods` asks for is held in `s`: Ctrl for bit 1, Shift for
/// bit 2, Alt for bit 4 and Meta for bit 8.
pub open spec fn modifiers_held(mods: u32, s: ModifierState) -> bool {
    &&& mods & 1 != 0 ==> s.ctrl
    &&& mods & 2 != 0 ==> s.shift
    &&& mods & 4 != 0 ==> s.alt
    &&& mods & 8 != 0 ==> s.meta
}

/// Every modifier whose bit is set in `mods` is held.
pub open spec fn spec_mods_match(mods: u32, ctrl: bool, shift: bool, alt: bool, meta: bool) -> bool {
    &&& (mods & 1 == 0 || ctrl)
    &&& (mods & 2 == 0 || shift)
    &&& (mods & 4 == 0 || alt)
    &&& (mods & 8 == 0 || meta)
}

/// Whether every modifier that `vk_mods` asks for (bit 1 Ctrl, 2 Shift,
/// 4 Alt, 8 Meta) is held; other modifiers may be held too.
pub fn mods_match(vk_mods: u32, ctrl: bool, shift: bool, alt: bool, meta: bool) -> (r: bool)
    ensures
        r == spec_mods_match(vk_mods, ctrl, shift, alt, meta),
        r == modifiers_held(vk_mods, ModifierState { ctrl, shift, alt, meta }),
{
    (!(vk_mods & 1 != 0) || ctrl) && (!(vk_mods & 2 != 0) || shift) && (!(vk_mods & 4 != 0) || alt)
        && (!(vk_mods & 8 != 0) || meta)
}

/// The bit of a modifier name, already in upper case; 0 for a name it does not know.
pub open spec fn modifier_bit(upper_name: Seq<char>) -> u32 {
    if upper_name == "CONTROL"@ || upper_name == "CTRL"@ {
        1
    } else if upper_name == "SHIFT"@ {
        2
    } else if upper_name == "ALT"@ {
        4
    } else if upper_name == "META"@ || upper_name == "SUPER"@ || upper_name == "WIN"@
        || upper_name == "CMD"@ {
        8
    } else {
        0
    }
}

/// The bits of a list of modifier names, each compared in upper case.
pub open spec fn modifier_mask(names: Seq<Seq<char>>) -> u32
    decreases names.len(),
{
    if names.len() == 0 {
        0
    } else {
        modifier_mask(names.drop_last()) | modifier_bit(str_to_upper(names.last()))
    }
}

/// The Windows virtual-key code of a key name of the configuration file
/// (`KeyA`..`KeyZ`, `Digit0`..`Digit9`, `F1`..`F12`, `Space`, `Enter`, `Escape`,
/// `Tab`, `Backspace`, `Delete` and the four arrows).
pub open spec fn spec_key_to_vk(key: Seq<char>) -> Option<u32> {
    if key == "KeyA"@ {
        Some(0x41)
    } else if key == "KeyB"@ {
        Some(0x42)
    } else if key == "KeyC"@ {
        Some(0x43)
    } else if key == "KeyD"@ {
        Some(0x44)
    } else if key == "KeyE"@ {
        Some(0x45)
    } else if key == "KeyF"@ {
        Some(0x46)
    } else if key == "KeyG"@ {
        Some(0x47)
    } else if key == "KeyH"@ {
        Some(0x48)
    } else if key == "KeyI"@ {
        Some(0x49)
    } else if key == "KeyJ"@ {
        Some(0x4A)
    } else if key == "KeyK"@ {
        Some(0x4B)
    } else if key == "KeyL"@ {
        Some(0x4C)
    } else if key == "KeyM"@ {
        Some(0x4D)
    } else if key == "KeyN"@ {
        Some(0x4E)
    } else if key == "KeyO"@ {
        Some(0x4F)
    } else if key == "KeyP"@ {
        Some(0x50)
    } else if key == "KeyQ"@ {
        Some(0x51)
    } else if key == "KeyR"@ {
        Some(0x52)
    } else if key == "KeyS"@ {
        Some(0x53)
    } else if key == "KeyT"@ {
        Some(0x54)
    } else if key == "KeyU"@ {
        Some(0x55)
    } else if key == "KeyV"@ {
        Some(0x56)
    } else if key == "KeyW"@ {
        Some(0x57)
    } else if key == "KeyX"@ {
        Some(0x58)
    } else if key == "KeyY"@ {
        Some(0x59)
    } else if key == "KeyZ"@ {
        Some(0x5A)
    } else if key == "Digit0"@ {
        Some(0x30)
    } else if key == "Digit1"@ {
        Some(0x31)
    } else if key == "Digit2"@ {
        Some(0x32)
    } else if key == "Digit3"@ {
        Some(0x33)
    } else if key == "Digit4"@ {
        Some(0x34)
    } else if key == "Digit5"@ {
        Some(0x35)
    } else if key == "Digit6"@ {
        Some(0x36)
    } else if key == "Digit7"@ {
        Some(0x37)
    } else if key == "Digit8"@ {
        Some(0x38)
    } else if key == "Digit9"@ {
        Some(0x39)
    } else if key == "F1"@ {
        Some(0x70)
    } else if key == "F2"@ {
        Some(0x71)
    } else if key == "F3"@ {
        Some(0x72)
    } else if key == "F4"@ {
        Some(0x73)
    } else if key == "F5"@ {
        Some(0x74)
    } else if key == "F6"@ {
        Some(0x75)
    } else if key == "F7"@ {
        Some(0x76)
    } else if key == "F8"@ {
        Some(0x77)
    } else if key == "F9"@ {
        Some(0x78)
    } else if key == "F10"@ {
        Some(0x79)
    } else if key == "F11"@ {
        Some(0x7A)
    } else if key == "F12"@ {
        Some(0x7B)
    } else if key == "Space"@ {
        Some(0x20)
    } else if key == "Enter"@ {
        Some(0x0D)
    } else if key == "Escape"@ {
        Some(0x1B)
    } else if key == "Tab"@ {
        Some(0x09)
    } else if key == "Backspace"@ {
        Some(0x08)
    } else if key == "Delete"@ {
        Some(0x2E)
    } else if key == "ArrowUp"@ {
        Some(0x26)
    } else if key == "ArrowDown"@ {
        Some(0x28)
    } else if key == "ArrowLeft"@ {
        Some(0x25)
    } else if key == "ArrowRight"@ {
        Some(0x27)
    } else {
        None
    }
}


/// `k` is `Key` followed by a capital letter.
pub open spec fn is_letter_key(k: Seq<char>) -> bool {
    k.len() == 4 && k[0] == 'K' && k[1] == 'e' && k[2] == 'y' && 'A' <= k[3] <= 'Z'
}

/// `k` is `Digit` followed by a decimal digit.
pub open spec fn is_digit_key(k: Seq<char>) -> bool {
    k.len() == 6 && k[0] == 'D' && k[1] == 'i' && k[2] == 'g' && k[3] == 'i' && k[4] == 't' && '0' <= k[5]
        <= '9'
}

/// The number `n` of a function-key name `Fn`, for `n` from 1 to 12.
pub open spec fn function_key_number(k: Seq<char>) -> Option<int> {
    if k.len() == 2 && k[0] == 'F' && '1' <= k[1] <= '9' {
        Some(k[1] as int - '0' as int)
    } else if k.len() == 3 && k[0] == 'F' && k[1] == '1' && '0' <= k[2] <= '2' {
        Some(10 + (k[2] as int - '0' as int))
    } else {
        None
    }
}

/// The code of one of the named keys (`Space`, `Enter`, `Escape`, `Tab`,
/// `Backspace`, `Delete` and the four arrows), spelled out character by character.
pub open spec fn named_key_code(k: Seq<char>) -> Option<u32> {
    if k.len() == 5 && k[0] == 'S' && k[1] == 'p' && k[2] == 'a' && k[3] == 'c' && k[4] == 'e' {
        Some(0x20)
    } else if k.len() == 5 && k[0] == 'E' && k[1] == 'n' && k[2] == 't' && k[3] == 'e' && k[4] == 'r' {
        Some(0x0D)
    } else if k.len() == 6 && k[0] == 'E' && k[1] == 's' && k[2] == 'c' && k[3] == 'a' && k[4] == 'p' && k[5] == 'e' {
        Some(0x1B)
    } else if k.len() == 3 && k[0] == 'T' && k[1] == 'a' && k[2] == 'b' {
        Some(0x09)
    } else if k.len() == 9 && k[0] == 'B' && k[1] == 'a' && k[2] == 'c' && k[3] == 'k' && k[4] == 's' && k[5] == 'p' && k[6] == 'a' && k[7] == 'c' && k[8] == 'e' {
        Some(0x08)
    } else if k.len() == 6 && k[0] == 'D' && k[1] == 'e' && k[2] == 'l' && k[3] == 'e' && k[4] == 't' && k[5] == 'e' {
        Some(0x2E)
    } else if k.len() == 7 && k[0] == 'A' && k[1] == 'r' && k[2] == 'r' && k[3] == 'o' && k[4] == 'w' && k[5] == 'U' && k[6] == 'p' {
        Some(0x26)
    } else if k.len() == 9 && k[0] == 'A' && k[1] == 'r' && k[2] == 'r' && k[3] == 'o' && k[4] == 'w' && k[5] == 'D' && k[6] == 'o' && k[7] == 'w' && k[8] == 'n' {
        Some(0x28)
    } else if k.len() == 9 && k[0] == 'A' && k[1] == 'r' && k[2] == 'r' && k[3] == 'o' && k[4] == 'w' && k[5] == 'L' && k[6] == 'e' && k[7] == 'f' && k[8] == 't' {
        Some(0x25)
    } else if k.len() == 10 && k[0] == 'A' && k[1] == 'r' && k[2] == 'r' && k[3] == 'o' && k[4] == 'w' && k[5] == 'R' && k[6] == 'i' && k[7] == 'g' && k[8] == 'h' && k[9] == 't' {
        Some(0x27)
    } else {
        None
    }
}

/// The virtual-key codes by their rule: `KeyA`..`KeyZ` are 0x41..0x5A,
/// `Digit0`..`Digit9` are 0x30..0x39, `F1`..`F12` are 0x70..0x7B, and the named keys
/// have their own codes; no other name has a code.
pub open spec fn key_code_rule(k: Seq<char>) -> Option<u32> {
    if is_letter_key(k) {
        Some((0x41 + (k[3] as int - 'A' as int)) as u32)
    } else if is_digit_key(k) {
        Some((0x30 + (k[5] as int - '0' as int)) as u32)
    } else if function_key_number(k) is Some {
        Some((0x6F + function_key_number(k).unwrap()) as u32)
    } else {
        named_key_code(k)
    }
}

/// The key table follows the rule of `key_code_rule`: the 26 letter keys, the 10
/// digit keys, the 12 function keys and the 10 named keys have their codes, and
/// every other name has none.
pub proof fn lemma_key_table_rule(k: Seq<char>)
    ensures
        spec_key_to_vk(k) == key_code_rule(k),
{
    reveal_strlit("KeyA");
    reveal_strlit("KeyB");
    reveal_strlit("KeyC");
    reveal_strlit("KeyD");
    reveal_strlit("KeyE");
    reveal_strlit("KeyF");
    reveal_strlit("KeyG");
    reveal_strlit("KeyH");
    reveal_strlit("KeyI");
    reveal_strlit("KeyJ");
    reveal_strlit("KeyK");
    reveal_strlit("KeyL");
    reveal_strlit("KeyM");
    reveal_strlit("KeyN");
    reveal_strlit("KeyO");
    reveal_strlit("KeyP");
    reveal_strlit("KeyQ");
    reveal_strlit("KeyR");
    reveal_strlit("KeyS");
    reveal_strlit("KeyT");
    reveal_strlit("KeyU");
    reveal_strlit("KeyV");
    reveal_strlit("KeyW");
    reveal_strlit("KeyX");
    reveal_strlit("KeyY");
    reveal_strlit("KeyZ");
    reveal_strlit("Digit0");
    reveal_strlit("Digit1");
    reveal_strlit("Digit2");
    reveal_strlit("Digit3");
    reveal_strlit("Digit4");
    reveal_strlit("Digit5");
    reveal_strlit("Digit6");
    reveal_strlit("Digit7");
    reveal_strlit("Digit8");
    reveal_strlit("Digit9");
    reveal_strlit("F1");
    reveal_strlit("F2");
    reveal_strlit("F3");
    reveal_strlit("F4");
    reveal_strlit("F5");
    reveal_strlit("F6");
    reveal_strlit("F7");
    reveal_strlit("F8");
    reveal_strlit("F9");
    reveal_strlit("F10");
    reveal_strlit("F11");
    reveal_strlit("F12");
    reveal_strlit("Space");
    reveal_strlit("Enter");
    reveal_strlit("Escape");
    reveal_strlit("Tab");
    reveal_strlit("Backspace");
    reveal_strlit("Delete");
    reveal_strlit("ArrowUp");
    reveal_strlit("ArrowDown");
    reveal_strlit("ArrowLeft");
    reveal_strlit("ArrowRight");
    if is_letter_key(k) {
        if k[3] == 'A' {
            assert(k =~= "KeyA"@);
        } else if k[3] == 'B' {
            assert(k =~= "KeyB"@);
        } else if k[3] == 'C' {
            assert(k =~= "KeyC"@);
        } else if k[3] == 'D' {
            assert(k =~= "KeyD"@);
        } else if k[3] == 'E' {
            assert(k =~= "KeyE"@);
        } else if k[3] == 'F' {
            assert(k =~= "KeyF"@);
        } else if k[3] == 'G' {
            assert(k =~= "KeyG"@);
        } else if k[3] == 'H' {
            assert(k =~= "KeyH"@);
        } else if k[3] == 'I' {
            assert(k =~= "KeyI"@);
        } else if k[3] == 'J' {
            assert(k =~= "KeyJ"@);
        } else if k[3] == 'K' {
            assert(k =~= "KeyK"@);
        } else if k[3] == 'L' {
            assert(k =~= "KeyL"@);
        } else if k[3] == 'M' {
            assert(k =~= "KeyM"@);
        } else if k[3] == 'N' {
            assert(k =~= "KeyN"@);
        } else if k[3] == 'O' {
            assert(k =~= "KeyO"@);
        } else if k[3] == 'P' {
            assert(k =~= "KeyP"@);
        } else if k[3] == 'Q' {
            assert(k =~= "KeyQ"@);
        } else if k[3] == 'R' {
            assert(k =~= "KeyR"@);
        } else if k[3] == 'S' {
            assert(k =~= "KeyS"@);
        } else if k[3] == 'T' {
            assert(k =~= "KeyT"@);
        } else if k[3] == 'U' {
            assert(k =~= "KeyU"@);
        } else if k[3] == 'V' {
            assert(k =~= "KeyV"@);
        } else if k[3] == 'W' {
            assert(k =~= "KeyW"@);
        } else if k[3] == 'X' {
            assert(k =~= "KeyX"@);
        } else if k[3] == 'Y' {
            assert(k =~= "KeyY"@);
        } else if k[3] == 'Z' {
            assert(k =~= "KeyZ"@);
        }
    } else if is_digit_key(k) {
        if k[5] == '0' {
            assert(k =~= "Digit0"@);
        } else if k[5] == '1' {
            assert(k =~= "Digit1"@);
        } else if k[5] == '2' {
            assert(k =~= "Digit2"@);
        } else if k[5] == '3' {
            assert(k =~= "Digit3"@);
        } else if k[5] == '4' {
            assert(k =~= "Digit4"@);
        } else if k[5] == '5' {
            assert(k =~= "Digit5"@);
        } else if k[5] == '6' {
            assert(k =~= "Digit6"@);
        } else if k[5] == '7' {
            assert(k =~= "Digit7"@);
        } else if k[5] == '8' {
            assert(k =~= "Digit8"@);
        } else if k[5] == '9' {
            assert(k =~= "Digit9"@);
        }
    } else if function_key_number(k) is Some {
        if k.len() == 2 && k[1] == '1' {
            assert(k =~= "F1"@);
        } else if k.len() == 2 && k[1] == '2' {
            assert(k =~= "F2"@);
        } else if k.len() == 2 && k[1] == '3' {
            assert(k =~= "F3"@);
        } else if k.len() == 2 && k[1] == '4' {
            assert(k =~= "F4"@);
        } else if k.len() == 2 && k[1] == '5' {
            assert(k =~= "F5"@);
        } else if k.len() == 2 && k[1] == '6' {
            assert(k =~= "F6"@);
        } else if k.len() == 2 && k[1] == '7' {
            assert(k =~= "F7"@);
        } else if k.len() == 2 && k[1] == '8' {
            assert(k =~= "F8"@);
        } else if k.len() == 2 && k[1] == '9' {
            assert(k =~= "F9"@);
        } else if k.len() == 3 && k[2] == '0' {
            assert(k =~= "F10"@);
        } else if k.len() == 3 && k[2] == '1' {
            assert(k =~= "F11"@);
        } else if k.len() == 3 && k[2] == '2' {
            assert(k =~= "F12"@);
        }
    } else if named_key_code(k) is Some {
        if k.len() == 5 && k[0] == 'S' && k[1] == 'p' && k[2] == 'a' && k[3] == 'c' && k[4] == 'e' {
            assert(k =~= "Space"@);
        } else if k.len() == 5 && k[0] == 'E' && k[1] == 'n' && k[2] == 't' && k[3] == 'e' && k[4] == 'r' {
            assert(k =~= "Enter"@);
        } else if k.len() == 6 && k[0] == 'E' && k[1] == 's' && k[2] == 'c' && k[3] == 'a' && k[4] == 'p' && k[5] == 'e' {
            assert(k =~= "Escape"@);
        } else if k.len() == 3 && k[0] == 'T' && k[1] == 'a' && k[2] == 'b' {
            assert(k =~= "Tab"@);
        } else if k.len() == 9 && k[0] == 'B' && k[1] == 'a' && k[2] == 'c' && k[3] == 'k' && k[4] == 's' && k[5] == 'p' && k[6] == 'a' && k[7] == 'c' && k[8] == 'e' {
            assert(k =~= "Backspace"@);
        } else if k.len() == 6 && k[0] == 'D' && k[1] == 'e' && k[2] == 'l' && k[3] == 'e' && k[4] == 't' && k[5] == 'e' {
            assert(k =~= "Delete"@);
        } else if k.len() == 7 && k[0] == 'A' && k[1] == 'r' && k[2] == 'r' && k[3] == 'o' && k[4] == 'w' && k[5] == 'U' && k[6] == 'p' {
            assert(k =~= "ArrowUp"@);
        } else if k.len() == 9 && k[0] == 'A' && k[1] == 'r' && k[2] == 'r' && k[3] == 'o' && k[4] == 'w' && k[5] == 'D' && k[6] == 'o' && k[7] == 'w' && k[8] == 'n' {
            assert(k =~= "ArrowDown"@);
        } else if k.len() == 9 && k[0] == 'A' && k[1] == 'r' && k[2] == 'r' && k[3] == 'o' && k[4] == 'w' && k[5] == 'L' && k[6] == 'e' && k[7] == 'f' && k[8] == 't' {
            assert(k =~= "ArrowLeft"@);
        } else if k.len() == 10 && k[0] == 'A' && k[1] == 'r' && k[2] == 'r' && k[3] == 'o' && k[4] == 'w' && k[5] == 'R' && k[6] == 'i' && k[7] == 'g' && k[8] == 'h' && k[9] == 't' {
            assert(k =~= "ArrowRight"@);
        }
    } else {
        assert(k != "KeyA"@);
        assert(k != "KeyB"@);
        assert(k != "KeyC"@);
        assert(k != "KeyD"@);
        assert(k != "KeyE"@);
        assert(k != "KeyF"@);
        assert(k != "KeyG"@);
        assert(k != "KeyH"@);
        assert(k != "KeyI"@);
        assert(k != "KeyJ"@);
        assert(k != "KeyK"@);
        assert(k != "KeyL"@);
        assert(k != "KeyM"@);
        assert(k != "KeyN"@);
        assert(k != "KeyO"@);
        assert(k != "KeyP"@);
        assert(k != "KeyQ"@);
        assert(k != "KeyR"@);
        assert(k != "KeyS"@);
        assert(k != "KeyT"@);
        assert(k != "KeyU"@);
        assert(k != "KeyV"@);
        assert(k != "KeyW"@);
        assert(k != "KeyX"@);
        assert(k != "KeyY"@);
        assert(k != "KeyZ"@);
        assert(k != "Digit0"@);
        assert(k != "Digit1"@);
        assert(k != "Digit2"@);
        assert(k != "Digit3"@);
        assert(k != "Digit4"@);
        assert(k != "Digit5"@);
        assert(k != "Digit6"@);
        assert(k != "Digit7"@);
        assert(k != "Digit8"@);
        assert(k != "Digit9"@);
        assert(k != "F1"@);
        assert(k != "F2"@);
        assert(k != "F3"@);
        assert(k != "F4"@);
        assert(k != "F5"@);
        assert(k != "F6"@);
        assert(k != "F7"@);
        assert(k != "F8"@);
        assert(k != "F9"@);
        assert(k != "F10"@);
        assert(k != "F11"@);
        assert(k != "F12"@);
        assert(k != "Space"@);
        assert(k != "Enter"@);
        assert(k != "Escape"@);
        assert(k != "Tab"@);
        assert(k != "Backspace"@);
        assert(k != "Delete"@);
        assert(k != "ArrowUp"@);
        assert(k != "ArrowDown"@);
        assert(k != "ArrowLeft"@);
        assert(k != "ArrowRight"@);
    }
}


/// The 58 key names that the configuration file can use.
pub open spec fn key_names() -> Seq<Seq<char>> {
    seq![
        "KeyA"@,
        "KeyB"@,
        "KeyC"@,
        "KeyD"@,
        "KeyE"@,
        "KeyF"@,
        "KeyG"@,
        "KeyH"@,
        "KeyI"@,
        "KeyJ"@,
        "KeyK"@,
        "KeyL"@,
        "KeyM"@,
        "KeyN"@,
        "KeyO"@,
        "KeyP"@,
        "KeyQ"@,
        "KeyR"@,
        "KeyS"@,
        "KeyT"@,
        "KeyU"@,
        "KeyV"@,
        "KeyW"@,
        "KeyX"@,
        "KeyY"@,
        "KeyZ"@,
        "Digit0"@,
        "Digit1"@,
        "Digit2"@,
        "Digit3"@,
        "Digit4"@,
        "Digit5"@,
        "Digit6"@,
        "Digit7"@,
        "Digit8"@,
        "Digit9"@,
        "F1"@,
        "F2"@,
        "F3"@,
        "F4"@,
        "F5"@,
        "F6"@,
        "F7"@,
        "F8"@,
        "F9"@,
        "F10"@,
        "F11"@,
        "F12"@,
        "Space"@,
        "Enter"@,
        "Escape"@,
        "Tab"@,
        "Backspace"@,
        "Delete"@,
        "ArrowUp"@,
        "ArrowDown"@,
        "ArrowLeft"@,
        "ArrowRight"@,
    ]
}

/// Exactly the 58 names of `key_names` have a virtual-key code.
pub proof fn lemma_key_names_are_known(k: Seq<char>)
    ensures
        key_names().len() == 58,
        spec_key_to_vk(k) is Some <==> key_names().contains(k),
{
    reveal_strlit("KeyA");
    reveal_strlit("KeyB");
    reveal_strlit("KeyC");
    reveal_strlit("KeyD");
    reveal_strlit("KeyE");
    reveal_strlit("KeyF");
    reveal_strlit("KeyG");
    reveal_strlit("KeyH");
    reveal_strlit("KeyI");
    reveal_strlit("KeyJ");
    reveal_strlit("KeyK");
    reveal_strlit("KeyL");
    reveal_strlit("KeyM");
    reveal_strlit("KeyN");
    reveal_strlit("KeyO");
    reveal_strlit("KeyP");
    reveal_strlit("KeyQ");
    reveal_strlit("KeyR");
    reveal_strlit("KeyS");
    reveal_strlit("KeyT");
    reveal_strlit("KeyU");
    reveal_strlit("KeyV");
    reveal_strlit("KeyW");
    reveal_strlit("KeyX");
    reveal_strlit("KeyY");
    reveal_strlit("KeyZ");
    reveal_strlit("Digit0");
    reveal_strlit("Digit1");
    reveal_strlit("Digit2");
    reveal_strlit("Digit3");
    reveal_strlit("Digit4");
    reveal_strlit("Digit5");
    reveal_strlit("Digit6");
    reveal_strlit("Digit7");
    reveal_strlit("Digit8");
    reveal_strlit("Digit9");
    reveal_strlit("F1");
    reveal_strlit("F2");
    reveal_strlit("F3");
    reveal_strlit("F4");
    reveal_strlit("F5");
    reveal_strlit("F6");
    reveal_strlit("F7");
    reveal_strlit("F8");
    reveal_strlit("F9");
    reveal_strlit("F10");
    reveal_strlit("F11");
    reveal_strlit("F12");
    reveal_strlit("Space");
    reveal_strlit("Enter");
    reveal_strlit("Escape");
    reveal_strlit("Tab");
    reveal_strlit("Backspace");
    reveal_strlit("Delete");
    reveal_strlit("ArrowUp");
    reveal_strlit("ArrowDown");
    reveal_strlit("ArrowLeft");
    reveal_strlit("ArrowRight");
    if spec_key_to_vk(k) is Some {
        if k == "KeyA"@ {
            assert(key_names()[0] == k);
        } else if k == "KeyB"@ {
            assert(key_names()[1] == k);
        } else if k == "KeyC"@ {
            assert(key_names()[2] == k);
        } else if k == "KeyD"@ {
            assert(key_names()[3] == k);
        } else if k == "KeyE"@ {
            assert(key_names()[4] == k);
        } else if k == "KeyF"@ {
            assert(key_names()[5] == k);
        } else if k == "KeyG"@ {
            assert(key_names()[6] == k);
        } else if k == "KeyH"@ {
            assert(key_names()[7] == k);
        } else if k == "KeyI"@ {
            assert(key_names()[8] == k);
        } else if k == "KeyJ"@ {
            assert(key_names()[9] == k);
        } else if k == "KeyK"@ {
            assert(key_names()[10] == k);
        } else if k == "KeyL"@ {
            assert(key_names()[11] == k);
        } else if k == "KeyM"@ {
            assert(key_names()[12] == k);
        } else if k == "KeyN"@ {
            assert(key_names()[13] == k);
        } else if k == "KeyO"@ {
            assert(key_names()[14] == k);
        } else if k == "KeyP"@ {
            assert(key_names()[15] == k);
        } else if k == "KeyQ"@ {
            assert(key_names()[16] == k);
        } else if k == "KeyR"@ {
            assert(key_names()[17] == k);
        } else if k == "KeyS"@ {
            assert(key_names()[18] == k);
        } else if k == "KeyT"@ {
            assert(key_names()[19] == k);
        } else if k == "KeyU"@ {
            assert(key_names()[20] == k);
        } else if k == "KeyV"@ {
            assert(key_names()[21] == k);
        } else if k == "KeyW"@ {
            assert(key_names()[22] == k);
        } else if k == "KeyX"@ {
            assert(key_names()[23] == k);
        } else if k == "KeyY"@ {
            assert(key_names()[24] == k);
        } else if k == "KeyZ"@ {
            assert(key_names()[25] == k);
        } else if k == "Digit0"@ {
            assert(key_names()[26] == k);
        } else if k == "Digit1"@ {
            assert(key_names()[27] == k);
        } else if k == "Digit2"@ {
            assert(key_names()[28] == k);
        } else if k == "Digit3"@ {
            assert(key_names()[29] == k);
        } else if k == "Digit4"@ {
            assert(key_names()[30] == k);
        } else if k == "Digit5"@ {
            assert(key_names()[31] == k);
        } else if k == "Digit6"@ {
            assert(key_names()[32] == k);
        } else if k == "Digit7"@ {
            assert(key_names()[33] == k);
        } else if k == "Digit8"@ {
            assert(key_names()[34] == k);
        } else if k == "Digit9"@ {
            assert(key_names()[35] == k);
        } else if k == "F1"@ {
            assert(key_names()[36] == k);
        } else if k == "F2"@ {
            assert(key_names()[37] == k);
        } else if k == "F3"@ {
            assert(key_names()[38] == k);
        } else if k == "F4"@ {
            assert(key_names()[39] == k);
        } else if k == "F5"@ {
            assert(key_names()[40] == k);
        } else if k == "F6"@ {
            assert(key_names()[41] == k);
        } else if k == "F7"@ {
            assert(key_names()[42] == k);
        } else if k == "F8"@ {
            assert(key_names()[43] == k);
        } else if k == "F9"@ {
            assert(key_names()[44] == k);
        } else if k == "F10"@ {
            assert(key_names()[45] == k);
        } else if k == "F11"@ {
            assert(key_names()[46] == k);
        } else if k == "F12"@ {
            assert(key_names()[47] == k);
        } else if k == "Space"@ {
            assert(key_names()[48] == k);
        } else if k == "Enter"@ {
            assert(key_names()[49] == k);
        } else if k == "Escape"@ {
            assert(key_names()[50] == k);
        } else if k == "Tab"@ {
            assert(key_names()[51] == k);
        } else if k == "Backspace"@ {
            assert(key_names()[52] == k);
        } else if k == "Delete"@ {
            assert(key_names()[53] == k);
        } else if k == "ArrowUp"@ {
            assert(key_names()[54] == k);
        } else if k == "ArrowDown"@ {
            assert(key_names()[55] == k);
        } else if k == "ArrowLeft"@ {
            assert(key_names()[56] == k);
        } else if k == "ArrowRight"@ {
            assert(key_names()[57] == k);
        }
    }
    if key_names().contains(k) {
        let i = choose|i: int| 0 <= i < key_names().len() && key_names()[i] == k;
        lemma_key_table_rule(k);
        if i == 0 {
            assert(k == "KeyA"@);
        } else if i == 1 {
            assert(k == "KeyB"@);
        } else if i == 2 {
            assert(k == "KeyC"@);
        } else if i == 3 {
            assert(k == "KeyD"@);
        } else if i == 4 {
            assert(k == "KeyE"@);
        } else if i == 5 {
            assert(k == "KeyF"@);
        } else if i == 6 {
            assert(k == "KeyG"@);
        } else if i == 7 {
            assert(k == "KeyH"@);
        } else if i == 8 {
            assert(k == "KeyI"@);
        } else if i == 9 {
            assert(k == "KeyJ"@);
        } else if i == 10 {
            assert(k == "KeyK"@);
        } else if i == 11 {
            assert(k == "KeyL"@);
        } else if i == 12 {
            assert(k == "KeyM"@);
        } else if i == 13 {
            assert(k == "KeyN"@);
        } else if i == 14 {
            assert(k == "KeyO"@);
        } else if i == 15 {
            assert(k == "KeyP"@);
        } else if i == 16 {
            assert(k == "KeyQ"@);
        } else if i == 17 {
            assert(k == "KeyR"@);
        } else if i == 18 {
            assert(k == "KeyS"@);
        } else if i == 19 {
            assert(k == "KeyT"@);
        } else if i == 20 {
            assert(k == "KeyU"@);
        } else if i == 21 {
            assert(k == "KeyV"@);
        } else if i == 22 {
            assert(k == "KeyW"@);
        } else if i == 23 {
            assert(k == "KeyX"@);
        } else if i == 24 {
            assert(k == "KeyY"@);
        } else if i == 25 {
            assert(k == "KeyZ"@);
        } else if i == 26 {
            assert(k == "Digit0"@);
        } else if i == 27 {
            assert(k == "Digit1"@);
        } else if i == 28 {
            assert(k == "Digit2"@);
        } else if i == 29 {
            assert(k == "Digit3"@);
        } else if i == 30 {
            assert(k == "Digit4"@);
        } else if i == 31 {
            assert(k == "Digit5"@);
        } else if i == 32 {
            assert(k == "Digit6"@);
        } else if i == 33 {
            assert(k == "Digit7"@);
        } else if i == 34 {
            assert(k == "Digit8"@);
        } else if i == 35 {
            assert(k == "Digit9"@);
        } else if i == 36 {
            assert(k == "F1"@);
        } else if i == 37 {
            assert(k == "F2"@);
        } else if i == 38 {
            assert(k == "F3"@);
        } else if i == 39 {
            assert(k == "F4"@);
        } else if i == 40 {
            assert(k == "F5"@);
        } else if i == 41 {
            assert(k == "F6"@);
        } else if i == 42 {
            assert(k == "F7"@);
        } else if i == 43 {
            assert(k == "F8"@);
        } else if i == 44 {
            assert(k == "F9"@);
        } else if i == 45 {
            assert(k == "F10"@);
        } else if i == 46 {
            assert(k == "F11"@);
        } else if i == 47 {
            assert(k == "F12"@);
        } else if i == 48 {
            assert(k == "Space"@);
        } else if i == 49 {
            assert(k == "Enter"@);
        } else if i == 50 {
            assert(k == "Escape"@);
        } else if i == 51 {
            assert(k == "Tab"@);
        } else if i == 52 {
            assert(k == "Backspace"@);
        } else if i == 53 {
            assert(k == "Delete"@);
        } else if i == 54 {
            assert(k == "ArrowUp"@);
        } else if i == 55 {
            assert(k == "ArrowDown"@);
        } else if i == 56 {
            assert(k == "ArrowLeft"@);
        } else if i == 57 {
            assert(k == "ArrowRight"@);
        }
    }
}

/// Different key names have different virtual-key codes.
pub proof fn lemma_key_codes_distinct(a: Seq<char>, b: Seq<char>)
    requires
        spec_key_to_vk(a) is Some,
        spec_key_to_vk(a) == spec_key_to_vk(b),
    ensures
        a == b,
{
    lemma_key_table_rule(a);
    lemma_key_table_rule(b);
    assert(a =~= b);
}

/// The modifier bits and the virtual-key code of a binding, if its key name is known.
pub open spec fn spec_parse_vk(names: Seq<Seq<char>>, key: Seq<char>) -> Option<(u32, u32)> {
    match spec_key_to_vk(key) {
        Some(vk) => Some((modifier_mask(names), vk)),
        None => None,
    }
}

/// The Windows virtual-key code of a key name of the configuration file, or
/// `None` for a name it does not know.
pub fn key_to_vk(key: &str) -> (r: Option<u32>)
    ensures
        r == spec_key_to_vk(key@),
        r == key_code_rule(key@),
{
    proof {
        lemma_key_table_rule(key@);
    }
    if str_eq(key, "KeyA") {
        Some(0x41)
    } else if str_eq(key, "KeyB") {
        Some(0x42)
    } else if str_eq(key, "KeyC") {
        Some(0x43)
    } else if str_eq(key, "KeyD") {
        Some(0x44)
    } else if str_eq(key, "KeyE") {
        Some(0x45)
    } else if str_eq(key, "KeyF") {
        Some(0x46)
    } else if str_eq(key, "KeyG") {
        Some(0x47)
    } else if str_eq(key, "KeyH") {
        Some(0x48)
    } else if str_eq(key, "KeyI") {
        Some(0x49)
    } else if str_eq(key, "KeyJ") {
        Some(0x4A)
    } else if str_eq(key, "KeyK") {
        Some(0x4B)
    } else if str_eq(key, "KeyL") {
        Some(0x4C)
    } else if str_eq(key, "KeyM") {
        Some(0x4D)
    } else if str_eq(key, "KeyN") {
        Some(0x4E)
    } else if str_eq(key, "KeyO") {
        Some(0x4F)
    } else if str_eq(key, "KeyP") {
        Some(0x50)
    } else if str_eq(key, "KeyQ") {
        Some(0x51)
    } else if str_eq(key, "KeyR") {
        Some(0x52)
    } else if str_eq(key, "KeyS") {
        Some(0x53)
    } else if str_eq(key, "KeyT") {
        Some(0x54)
    } else if str_eq(key, "KeyU") {
        Some(0x55)
    } else if str_eq(key, "KeyV") {
        Some(0x56)
    } else if str_eq(key, "KeyW") {
        Some(0x57)
    } else if str_eq(key, "KeyX") {
        Some(0x58)
    } else if str_eq(key, "KeyY") {
        Some(0x59)
    } else if str_eq(key, "KeyZ") {
        Some(0x5A)
    } else if str_eq(key, "Digit0") {
        Some(0x30)
    } else if str_eq(key, "Digit1") {
        Some(0x31)
    } else if str_eq(key, "Digit2") {
        Some(0x32)
    } else if str_eq(key, "Digit3") {
        Some(0x33)
    } else if str_eq(key, "Digit4") {
        Some(0x34)
    } else if str_eq(key, "Digit5") {
        Some(0x35)
    } else if str_eq(key, "Digit6") {
        Some(0x36)
    } else if str_eq(key, "Digit7") {
        Some(0x37)
    } else if str_eq(key, "Digit8") {
        Some(0x38)
    } else if str_eq(key, "Digit9") {
        Some(0x39)
    } else if str_eq(key, "F1") {
        Some(0x70)
    } else if str_eq(key, "F2") {
        Some(0x71)
    } else if str_eq(key, "F3") {
        Some(0x72)
    } else if str_eq(key, "F4") {
        Some(0x73)
    } else if str_eq(key, "F5") {
        Some(0x74)
    } else if str_eq(key, "F6") {
        Some(0x75)
    } else if str_eq(key, "F7") {
        Some(0x76)
    } else if str_eq(key, "F8") {
        Some(0x77)
    } else if str_eq(key, "F9") {
        Some(0x78)
    } else if str_eq(key, "F10") {
        Some(0x79)
    } else if str_eq(key, "F11") {
        Some(0x7A)
    } else if str_eq(key, "F12") {
        Some(0x7B)
    } else if str_eq(key, "Space") {
        Some(0x20)
    } else if str_eq(key, "Enter") {
        Some(0x0D)
    } else if str_eq(key, "Escape") {
        Some(0x1B)
    } else if str_eq(key, "Tab") {
        Some(0x09)
    } else if str_eq(key, "Backspace") {
        Some(0x08)
    } else if str_eq(key, "Delete") {
        Some(0x2E)
    } else if str_eq(key, "ArrowUp") {
        Some(0x26)
    } else if str_eq(key, "ArrowDown") {
        Some(0x28)
    } else if str_eq(key, "ArrowLeft") {
        Some(0x25)
    } else if str_eq(key, "ArrowRight") {
        Some(0x27)
    } else {
        None
    }
}

/// The bit of a modifier name already in upper case: 1 for `CONTROL`/`CTRL`, 2 for
/// `SHIFT`, 4 for `ALT`, 8 for `META`/`SUPER`/`WIN`/`CMD`, 0 for any other name.
pub fn modifier_bit_of(upper_name: &str) -> (r: u32)
    ensures
        r == modifier_bit(upper_name@),
{
    if str_eq(upper_name, "CONTROL") || str_eq(upper_name, "CTRL") {
        1
    } else if str_eq(upper_name, "SHIFT") {
        2
    } else if str_eq(upper_name, "ALT") {
        4
    } else if str_eq(upper_name, "META") || str_eq(upper_name, "SUPER") || str_eq(upper_name, "WIN")
        || str_eq(upper_name, "CMD") {
        8
    } else {
        0
    }
}

/// The modifier bits and the virtual-key code of a binding, or `None` when its
/// key name is unknown; unknown modifier names are ignored.
pub fn parse_vk(mod_strings: &[String], key: &str) -> (r: Option<(u32, u32)>)
    ensures
        r == spec_parse_vk(mod_strings.deep_view(), key@),
{
    let mut mods: u32 = 0;
    let n = mod_strings.len();
    for i in 0..n
        invariant
            n == mod_strings.deep_view().len(),
            mods == modifier_mask(mod_strings.deep_view().take(i as int)),
    {
        let ghost names = mod_strings.deep_view();
        assert(names.take(i + 1).drop_last() =~= names.take(i as int));
        assert(mod_strings[i as int]@ == names[i as int]);
        let up = str_upper(mod_strings[i].as_str());
        let bit = modifier_bit_of(up.as_str());
        mods = mods | bit;
    }
    assert(mod_strings.deep_view().take(n as int) =~= mod_strings.deep_view());
    let vk = key_to_vk(key)?;
    Some((mods, vk))
}

/// The hotkeys that the hook matches for a list of bindings: each binding with a
/// known key name, in order, sending its transformation.
pub open spec fn parsed_bindings(hs: Seq<HotkeyView>) -> Seq<ParsedHotkey>
    decreases hs.len(),
{
    if hs.len() == 0 {
        Seq::empty()
    } else {
        let rest = parsed_bindings(hs.drop_last());
        let h = hs.last();
        match spec_parse_vk(h.modifiers, h.key) {
            Some((mods, vk)) => rest.push(
                ParsedHotkey { mods, vk, event: DaemonEvent::Transform(h.transform) },
            ),
            None => rest,
        }
    }
}

/// The hotkeys that the hook matches for a configuration: its bindings, then the
/// settings hotkey (which opens the settings screen), each where its key name is known.
pub open spec fn spec_parse_hotkeys(s: SettingsView) -> Seq<ParsedHotkey> {
    let base = parsed_bindings(s.hotkeys);
    match spec_parse_vk(s.settings_hotkey.modifiers, s.settings_hotkey.key) {
        Some((mods, vk)) => base.push(ParsedHotkey { mods, vk, event: DaemonEvent::OpenSettings }),
        None => base,
    }
}

/// The hotkeys that the keyboard hook matches for `settings`.
pub fn parse_hotkeys(settings: &Settings) -> (r: Vec<ParsedHotkey>)
    ensures
        r@ == spec_parse_hotkeys(settings@),
{
    let mut parsed: Vec<ParsedHotkey> = Vec::new();
    let n = settings.hotkeys.len();
    for i in 0..n
        invariant
            n == settings.hotkeys@.len(),
            parsed@ == parsed_bindings(settings@.hotkeys.take(i as int)),
    {
        let ghost hs = settings@.hotkeys;
        assert(hs.take(i + 1).drop_last() =~= hs.take(i as int));
        assert(hs.take(i + 1).last() == settings.hotkeys[i as int]@);
        let hk = &settings.hotkeys[i];
        if let Some((mods, vk)) = parse_vk(hk.modifiers.as_slice(), hk.key.as_str()) {
            parsed.push(ParsedHotkey { mods, vk, event: DaemonEvent::Transform(hk.transform) });
        }
    }
    assert(settings@.hotkeys.take(n as int) =~= settings@.hotkeys);
    let sh = &settings.settings_hotkey;
    if let Some((mods, vk)) = parse_vk(sh.modifiers.as_slice(), sh.key.as_str()) {
        parsed.push(ParsedHotkey { mods, vk, event: DaemonEvent::OpenSettings });
    }
    parsed
}

/// The modifier key that a virtual-key code stands for (either side's key, or the
/// side-less code), if it is one.
pub open spec fn modifier_of_vk(vk: u32) -> Option<ModifierKey> {
    if vk == 0x11 || vk == 0xA2 || vk == 0xA3 {
        Some(ModifierKey::Ctrl)
    } else if vk == 0x10 || vk == 0xA0 || vk == 0xA1 {
        Some(ModifierKey::Shift)
    } else if vk == 0x12 || vk == 0xA4 || vk == 0xA5 {
        Some(ModifierKey::Alt)
    } else if vk == 0x5B || vk == 0x5C {
        Some(ModifierKey::Meta)
    } else {
        None
    }
}

/// `s` with modifier `m` marked as held (`down`) or released.
pub open spec fn with_modifier(s: ModifierState, m: ModifierKey, down: bool) -> ModifierState {
    match m {
        ModifierKey::Ctrl => ModifierState { ctrl: down, ..s },
        ModifierKey::Shift => ModifierState { shift: down, ..s },
        ModifierKey::Alt => ModifierState { alt: down, ..s },
        ModifierKey::Meta => ModifierState { meta: down, ..s },
    }
}

/// The event of the first hotkey of `hs` on key `vk` whose modifiers are all held.
pub open spec fn first_firing(hs: Seq<ParsedHotkey>, s: ModifierState, vk: u32) -> Option<DaemonEvent>
    decreases hs.len(),
{
    if hs.len() == 0 {
        None
    } else if spec_mods_match(hs[0].mods, s.ctrl, s.shift, s.alt, s.meta) && hs[0].vk == vk {
        Some(hs[0].event)
    } else {
        first_firing(hs.drop_first(), s, vk)
    }
}

/// Handles one key going down (`is_down`) or up. A modifier key updates `state`
/// and is passed on; another key going down fires the first matching hotkey,
/// whose event is returned (the hook then swallows the key); anything else is
/// passed on (`None`).
pub fn handle_key(state: &mut ModifierState, hotkeys: &Vec<ParsedHotkey>, vk: u32, is_down: bool) -> (r:
    Option<DaemonEvent>)
    ensures
        match modifier_of_vk(vk) {
            Some(m) => *final(state) == with_modifier(*old(state), m, is_down) && r is None,
            None => *final(state) == *old(state) && r == if is_down {
                first_firing(hotkeys@, *old(state), vk)
            } else {
                None
            },
        },
        r is Some <==> is_down && modifier_of_vk(vk) is None && exists|i: int|
            0 <= i < hotkeys@.len() && #[trigger] hotkeys@[i].vk == vk && modifiers_held(
                hotkeys@[i].mods,
                *old(state),
            ),
        r is Some ==> exists|i: int|
            0 <= i < hotkeys@.len() && #[trigger] hotkeys@[i].vk == vk && modifiers_held(
                hotkeys@[i].mods,
                *old(state),
            ) && hotkeys@[i].event == r.unwrap() && forall|j: int|
                0 <= j < i ==> !(hotkeys@[j].vk == vk && modifiers_held(hotkeys@[j].mods, *old(state))),
{
    proof {
        lemma_fired_hotkey_matches(hotkeys@, *old(state), vk);
    }
    if vk == 0x11 || vk == 0xA2 || vk == 0xA3 {
        state.ctrl = is_down;
        None
    } else if vk == 0x10 || vk == 0xA0 || vk == 0xA1 {
        state.shift = is_down;
        None
    } else if vk == 0x12 || vk == 0xA4 || vk == 0xA5 {
        state.alt = is_down;
        None
    } else if vk == 0x5B || vk == 0x5C {
        state.meta = is_down;
        None
    } else if is_down {
        let c = state.ctrl;
        let s = state.shift;
        let a = state.alt;
        let m = state.meta;
        let n = hotkeys.len();
        assert(hotkeys@.skip(0) =~= hotkeys@);
        for i in 0..n
            invariant
                n == hotkeys@.len(),
                *state == (ModifierState { ctrl: c, shift: s, alt: a, meta: m }),
                *state == *old(state),
                modifier_of_vk(vk) is None,
                is_down,
                first_firing(hotkeys@, *state, vk) == first_firing(hotkeys@.skip(i as int), *state, vk),
        {
            let hk = hotkeys[i];
            assert(hotkeys@.skip(i as int)[0] == hk);
            if mods_match(hk.mods, c, s, a, m) && vk == hk.vk {
                proof {
                    lemma_fired_hotkey_matches(hotkeys@, *old(state), vk);
                }
                return Some(hk.event);
            }
            assert(hotkeys@.skip(i as int).drop_first() =~= hotkeys@.skip(i + 1));
        }
        None
    } else {
        None
    }
}

/// The modifier test of a hotkey asks exactly that each modifier in its set be held:
/// Ctrl for bit 1, Shift for bit 2, Alt for bit 4, Meta for bit 8; others may be held too.
pub proof fn lemma_mods_match_means_held(mods: u32, ctrl: bool, shift: bool, alt: bool, meta: bool)
    ensures
        spec_mods_match(mods, ctrl, shift, alt, meta) == modifiers_held(
            mods,
            ModifierState { ctrl, shift, alt, meta },
        ),
        spec_mods_match(mods, ctrl, shift, alt, meta) && mods & 1 != 0 ==> ctrl,
        spec_mods_match(mods, ctrl, shift, alt, meta) && mods & 2 != 0 ==> shift,
        spec_mods_match(mods, ctrl, shift, alt, meta) && mods & 4 != 0 ==> alt,
        spec_mods_match(mods, ctrl, shift, alt, meta) && mods & 8 != 0 ==> meta,
        spec_mods_match(mods, true, true, true, true),
{
}

/// The hotkey that fires for key `vk` is the first one of `hs` on that key whose
/// modifiers are all held; none fires when there is no such hotkey.
pub proof fn lemma_fired_hotkey_matches(hs: Seq<ParsedHotkey>, s: ModifierState, vk: u32)
    ensures
        first_firing(hs, s, vk) is Some <==> exists|i: int|
            0 <= i < hs.len() && #[trigger] hs[i].vk == vk && modifiers_held(hs[i].mods, s),
        first_firing(hs, s, vk) is Some ==> exists|i: int|
            0 <= i < hs.len() && #[trigger] hs[i].vk == vk && modifiers_held(hs[i].mods, s)
                && hs[i].event == first_firing(hs, s, vk).unwrap() && forall|j: int|
                0 <= j < i ==> !(hs[j].vk == vk && modifiers_held(hs[j].mods, s)),
    decreases hs.len(),
{
    if hs.len() > 0 {
        let rest = hs.drop_first();
        lemma_fired_hotkey_matches(rest, s, vk);
        lemma_mods_match_means_held(hs[0].mods, s.ctrl, s.shift, s.alt, s.meta);
        assert(s == ModifierState { ctrl: s.ctrl, shift: s.shift, alt: s.alt, meta: s.meta });
        if hs[0].vk == vk && modifiers_held(hs[0].mods, s) {
            assert(hs[0].vk == vk);
        } else {
            if exists|i: int| 0 <= i < hs.len() && #[trigger] hs[i].vk == vk && modifiers_held(hs[i].mods, s) {
                let i = choose|i: int| 0 <= i < hs.len() && #[trigger] hs[i].vk == vk && modifiers_held(hs[i].mods, s);
                assert(rest[i - 1] == hs[i]);
                assert(rest[i - 1].vk == vk);
            }
            if first_firing(rest, s, vk) is Some {
                let i = choose|i: int|
                    0 <= i < rest.len() && #[trigger] rest[i].vk == vk && modifiers_held(rest[i].mods, s)
                        && rest[i].event == first_firing(rest, s, vk).unwrap() && forall|j: int|
                        0 <= j < i ==> !(rest[j].vk == vk && modifiers_held(rest[j].mods, s));
                assert(hs[i + 1] == rest[i]);
                assert forall|j: int| 0 <= j < i + 1 implies !(hs[j].vk == vk && modifiers_held(hs[j].mods, s)) by {
                    if j > 0 {
                        assert(hs[j] == rest[j - 1]);
                    }
                }
                assert(hs[i + 1].vk == vk);
            }
        }
    }
}

/// Each modifier name asks for its own key: `CONTROL` and `CTRL` for Ctrl, `SHIFT`
/// for Shift, `ALT` for Alt, and `META`, `SUPER`, `WIN` and `CMD` for Meta; any other
/// name asks for nothing.
pub proof fn lemma_modifier_names_select_their_keys(s: ModifierState, name: Seq<char>)
    ensures
        modifiers_held(modifier_bit("CONTROL"@), s) == s.ctrl,
        modifiers_held(modifier_bit("CTRL"@), s) == s.ctrl,
        modifiers_held(modifier_bit("SHIFT"@), s) == s.shift,
        modifiers_held(modifier_bit("ALT"@), s) == s.alt,
        modifiers_held(modifier_bit("META"@), s) == s.meta,
        modifiers_held(modifier_bit("SUPER"@), s) == s.meta,
        modifiers_held(modifier_bit("WIN"@), s) == s.meta,
        modifiers_held(modifier_bit("CMD"@), s) == s.meta,
        name != "CONTROL"@ && name != "CTRL"@ && name != "SHIFT"@ && name != "ALT"@ && name != "META"@
            && name != "SUPER"@ && name != "WIN"@ && name != "CMD"@ ==> modifiers_held(modifier_bit(name), s),
{
    reveal_strlit("CONTROL");
    reveal_strlit("CTRL");
    reveal_strlit("SHIFT");
    reveal_strlit("ALT");
    reveal_strlit("META");
    reveal_strlit("SUPER");
    reveal_strlit("WIN");
    reveal_strlit("CMD");
    assert(1u32 & 1 != 0 && 1u32 & 2 == 0 && 1u32 & 4 == 0 && 1u32 & 8 == 0) by (bit_vector);
    assert(2u32 & 1 == 0 && 2u32 & 2 != 0 && 2u32 & 4 == 0 && 2u32 & 8 == 0) by (bit_vector);
    assert(4u32 & 1 == 0 && 4u32 & 2 == 0 && 4u32 & 4 != 0 && 4u32 & 8 == 0) by (bit_vector);
    assert(8u32 & 1 == 0 && 8u32 & 2 == 0 && 8u32 & 4 == 0 && 8u32 & 8 != 0) by (bit_vector);
    assert(0u32 & 1 == 0 && 0u32 & 2 == 0 && 0u32 & 4 == 0 && 0u32 & 8 == 0) by (bit_vector);
    assert("META"@[0] != "CTRL"@[0]);
    assert("SUPER"@[1] != "SHIFT"@[1]);
    assert("WIN"@[0] != "ALT"@[0]);
    assert("CMD"@[0] != "ALT"@[0]);
    assert("CMD"@[0] != "WIN"@[0]);
    assert("CMD"@.len() != "CONTROL"@.len());
    assert("CMD"@.len() != "CTRL"@.len());
    assert("CMD"@.len() != "SHIFT"@.len());
}

} // verus!
