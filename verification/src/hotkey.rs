//! The hotkey model: raw input keys, hotkey-combination validation, and
//! the filter that keeps the hotkey's own keystrokes from counting as
//! monitored activity.

use vstd::prelude::*;
use crate::strutil::{seq_contains_seq, split_parts, split_plus, str_contains, str_eq_str};

verus! {

/// A raw input key, as delivered by the system-wide listener. Keys the
/// filter never treats specially are carried as their printed name.
#[derive(Debug, Clone)]
pub enum InputKey {
    Alt,
    AltGr,
    ControlLeft,
    ControlRight,
    ShiftLeft,
    ShiftRight,
    MetaLeft,
    MetaRight,
    KeyA,
    KeyB,
    KeyC,
    KeyD,
    KeyE,
    KeyF,
    KeyG,
    KeyH,
    KeyI,
    KeyJ,
    KeyK,
    KeyL,
    KeyM,
    KeyN,
    KeyO,
    KeyP,
    KeyQ,
    KeyR,
    KeyS,
    KeyT,
    KeyU,
    KeyV,
    KeyW,
    KeyX,
    KeyY,
    KeyZ,
    Other(String),
}

/// The printed name of a key, e.g. `"KeyL"` or `"Alt"`.
pub open spec fn key_name_spec(k: InputKey) -> Seq<char> {
    match k {
        InputKey::Alt => "Alt"@,
        InputKey::AltGr => "AltGr"@,
        InputKey::ControlLeft => "ControlLeft"@,
        InputKey::ControlRight => "ControlRight"@,
        InputKey::ShiftLeft => "ShiftLeft"@,
        InputKey::ShiftRight => "ShiftRight"@,
        InputKey::MetaLeft => "MetaLeft"@,
        InputKey::MetaRight => "MetaRight"@,
        InputKey::KeyA => "KeyA"@,
        InputKey::KeyB => "KeyB"@,
        InputKey::KeyC => "KeyC"@,
        InputKey::KeyD => "KeyD"@,
        InputKey::KeyE => "KeyE"@,
        InputKey::KeyF => "KeyF"@,
        InputKey::KeyG => "KeyG"@,
        InputKey::KeyH => "KeyH"@,
        InputKey::KeyI => "KeyI"@,
        InputKey::KeyJ => "KeyJ"@,
        InputKey::KeyK => "KeyK"@,
        InputKey::KeyL => "KeyL"@,
        InputKey::KeyM => "KeyM"@,
        InputKey::KeyN => "KeyN"@,
        InputKey::KeyO => "KeyO"@,
        InputKey::KeyP => "KeyP"@,
        InputKey::KeyQ => "KeyQ"@,
        InputKey::KeyR => "KeyR"@,
        InputKey::KeyS => "KeyS"@,
        InputKey::KeyT => "KeyT"@,
        InputKey::KeyU => "KeyU"@,
        InputKey::KeyV => "KeyV"@,
        InputKey::KeyW => "KeyW"@,
        InputKey::KeyX => "KeyX"@,
        InputKey::KeyY => "KeyY"@,
        InputKey::KeyZ => "KeyZ"@,
        InputKey::Other(n) => n@,
    }
}

/// Whether `k` is the letter key whose single-letter name is `main`.
pub open spec fn letter_eq_spec(k: InputKey, main: Seq<char>) -> bool {
    match k {
        InputKey::KeyA => main == "A"@,
        InputKey::KeyB => main == "B"@,
        InputKey::KeyC => main == "C"@,
        InputKey::KeyD => main == "D"@,
        InputKey::KeyE => main == "E"@,
        InputKey::KeyF => main == "F"@,
        InputKey::KeyG => main == "G"@,
        InputKey::KeyH => main == "H"@,
        InputKey::KeyI => main == "I"@,
        InputKey::KeyJ => main == "J"@,
        InputKey::KeyK => main == "K"@,
        InputKey::KeyL => main == "L"@,
        InputKey::KeyM => main == "M"@,
        InputKey::KeyN => main == "N"@,
        InputKey::KeyO => main == "O"@,
        InputKey::KeyP => main == "P"@,
        InputKey::KeyQ => main == "Q"@,
        InputKey::KeyR => main == "R"@,
        InputKey::KeyS => main == "S"@,
        InputKey::KeyT => main == "T"@,
        InputKey::KeyU => main == "U"@,
        InputKey::KeyV => main == "V"@,
        InputKey::KeyW => main == "W"@,
        InputKey::KeyX => main == "X"@,
        InputKey::KeyY => main == "Y"@,
        InputKey::KeyZ => main == "Z"@,
        _ => false,
    }
}

/// Whether the hotkey combination split into `parts` makes the filter
/// swallow key `k`: a modifier key is swallowed when the combination
/// names that modifier, any other key when its printed name mentions the
/// combination's main (last) key or is exactly that letter.
pub open spec fn ignore_key_spec(k: InputKey, parts: Seq<Seq<char>>) -> bool {
    match k {
        InputKey::Alt | InputKey::AltGr => parts.contains("Alt"@),
        InputKey::ControlLeft | InputKey::ControlRight => parts.contains("Ctrl"@),
        InputKey::ShiftLeft | InputKey::ShiftRight => parts.contains("Shift"@),
        InputKey::MetaLeft | InputKey::MetaRight => parts.contains("Meta"@),
        _ => seq_contains_seq(key_name_spec(k), parts.last()) || letter_eq_spec(k, parts.last()),
    }
}

/// A raw input event: a key going down or up, or any pointer activity.
#[derive(Debug, Clone)]
pub enum InputEvent {
    KeyPress(InputKey),
    KeyRelease(InputKey),
    Pointer,
}

/// Whether the filter swallows this event for the given hotkey string:
/// only key events are ever swallowed.
pub open spec fn event_matches_shortcut(ev: InputEvent, shortcut: Seq<char>) -> bool {
    match ev {
        InputEvent::KeyPress(k) => ignore_key_spec(k, split_plus(shortcut)),
        InputEvent::KeyRelease(k) => ignore_key_spec(k, split_plus(shortcut)),
        InputEvent::Pointer => false,
    }
}

impl InputKey {
    /// The printed name of the key.
    pub fn key_name(&self) -> (r: String)
        ensures
            r@ == key_name_spec(*self),
    {
        match self {
            InputKey::Alt => String::from_str("Alt"),
            InputKey::AltGr => String::from_str("AltGr"),
            InputKey::ControlLeft => String::from_str("ControlLeft"),
            InputKey::ControlRight => String::from_str("ControlRight"),
            InputKey::ShiftLeft => String::from_str("ShiftLeft"),
            InputKey::ShiftRight => String::from_str("ShiftRight"),
            InputKey::MetaLeft => String::from_str("MetaLeft"),
            InputKey::MetaRight => String::from_str("MetaRight"),
            InputKey::KeyA => String::from_str("KeyA"),
            InputKey::KeyB => String::from_str("KeyB"),
            InputKey::KeyC => String::from_str("KeyC"),
            InputKey::KeyD => String::from_str("KeyD"),
            InputKey::KeyE => String::from_str("KeyE"),
            InputKey::KeyF => String::from_str("KeyF"),
            InputKey::KeyG => String::from_str("KeyG"),
            InputKey::KeyH => String::from_str("KeyH"),
            InputKey::KeyI => String::from_str("KeyI"),
            InputKey::KeyJ => String::from_str("KeyJ"),
            InputKey::KeyK => String::from_str("KeyK"),
            InputKey::KeyL => String::from_str("KeyL"),
            InputKey::KeyM => String::from_str("KeyM"),
            InputKey::KeyN => String::from_str("KeyN"),
            InputKey::KeyO => String::from_str("KeyO"),
            InputKey::KeyP => String::from_str("KeyP"),
            InputKey::KeyQ => String::from_str("KeyQ"),
            InputKey::KeyR => String::from_str("KeyR"),
            InputKey::KeyS => String::from_str("KeyS"),
            InputKey::KeyT => String::from_str("KeyT"),
            InputKey::KeyU => String::from_str("KeyU"),
            InputKey::KeyV => String::from_str("KeyV"),
            InputKey::KeyW => String::from_str("KeyW"),
            InputKey::KeyX => String::from_str("KeyX"),
            InputKey::KeyY => String::from_str("KeyY"),
            InputKey::KeyZ => String::from_str("KeyZ"),
            InputKey::Other(n) => n.clone(),
        }
    }

    /// Whether this key is the letter key named by the single letter `main`.
    fn letter_matches(&self, main: &str) -> (r: bool)
        ensures
            r == letter_eq_spec(*self, main@),
    {
        match self {
            InputKey::KeyA => str_eq_str(main, "A"),
            InputKey::KeyB => str_eq_str(main, "B"),
            InputKey::KeyC => str_eq_str(main, "C"),
            InputKey::KeyD => str_eq_str(main, "D"),
            InputKey::KeyE => str_eq_str(main, "E"),
            InputKey::KeyF => str_eq_str(main, "F"),
            InputKey::KeyG => str_eq_str(main, "G"),
            InputKey::KeyH => str_eq_str(main, "H"),
            InputKey::KeyI => str_eq_str(main, "I"),
            InputKey::KeyJ => str_eq_str(main, "J"),
            InputKey::KeyK => str_eq_str(main, "K"),
            InputKey::KeyL => str_eq_str(main, "L"),
            InputKey::KeyM => str_eq_str(main, "M"),
            InputKey::KeyN => str_eq_str(main, "N"),
            InputKey::KeyO => str_eq_str(main, "O"),
            InputKey::KeyP => str_eq_str(main, "P"),
            InputKey::KeyQ => str_eq_str(main, "Q"),
            InputKey::KeyR => str_eq_str(main, "R"),
            InputKey::KeyS => str_eq_str(main, "S"),
            InputKey::KeyT => str_eq_str(main, "T"),
            InputKey::KeyU => str_eq_str(main, "U"),
            InputKey::KeyV => str_eq_str(main, "V"),
            InputKey::KeyW => str_eq_str(main, "W"),
            InputKey::KeyX => str_eq_str(main, "X"),
            InputKey::KeyY => str_eq_str(main, "Y"),
            InputKey::KeyZ => str_eq_str(main, "Z"),
            _ => false,
        }
    }
}

/// Whether one of the combination's parts is exactly `word`.
fn parts_contain(parts: &Vec<String>, word: &str) -> (r: bool)
    ensures
        r == parts@.map_values(|p: String| p@).contains(word@),
{
    let ghost views = parts@.map_values(|p: String| p@);
    let mut i: usize = 0;
    while i < parts.len()
        invariant
            0 <= i <= parts@.len(),
            views == parts@.map_values(|p: String| p@),
            forall|k: int| 0 <= k < i ==> views[k] != word@,
        decreases parts@.len() - i,
    {
        if str_eq_str(parts[i].as_str(), word) {
            proof {
                assert(views[i as int] == word@);
            }
            return true;
        }
        i += 1;
    }
    false
}

/// Decides whether the filter swallows key `key` under the hotkey
/// combination `shortcut`, so the hotkey's own keystrokes never count
/// as unauthorized activity.
pub fn should_ignore_key(key: &InputKey, shortcut: &str) -> (r: bool)
    ensures
        r == ignore_key_spec(*key, split_plus(shortcut@)),
{
    let parts = split_parts(shortcut);
    let ghost views = parts@.map_values(|p: String| p@);
    let main_key = &parts[parts.len() - 1];
    proof {
        assert(views.last() == main_key@);
    }
    match key {
        InputKey::Alt | InputKey::AltGr => parts_contain(&parts, "Alt"),
        InputKey::ControlLeft | InputKey::ControlRight => parts_contain(&parts, "Ctrl"),
        InputKey::ShiftLeft | InputKey::ShiftRight => parts_contain(&parts, "Shift"),
        InputKey::MetaLeft | InputKey::MetaRight => parts_contain(&parts, "Meta"),
        _ => {
            let name = key.key_name();
            str_contains(name.as_str(), main_key.as_str()) || key.letter_matches(
                main_key.as_str(),
            )
        },
    }
}

/// Decides whether the filter swallows this event for the configured
/// hotkey; pointer activity is never the hotkey's own echo.
pub fn should_ignore_event(event: &InputEvent, shortcut: &str) -> (r: bool)
    ensures
        r == event_matches_shortcut(*event, shortcut@),
{
    match event {
        InputEvent::KeyPress(k) => should_ignore_key(k, shortcut),
        InputEvent::KeyRelease(k) => should_ignore_key(k, shortcut),
        InputEvent::Pointer => false,
    }
}

/// Whether a part of a combination is one of the accepted modifier names.
pub open spec fn is_modifier_name(p: Seq<char>) -> bool {
    p == "Ctrl"@ || p == "Alt"@ || p == "Shift"@ || p == "Meta"@ || p == "Cmd"@
}

/// A combination is valid when it has at least a modifier and a main
/// key, every leading part is a known modifier, and the main key is a
/// nonempty non-modifier.
pub open spec fn valid_shortcut_spec(s: Seq<char>) -> bool {
    let ps = split_plus(s);
    &&& ps.len() >= 2
    &&& (forall|i: int| 0 <= i < ps.len() - 1 ==> is_modifier_name(ps[i]))
    &&& ps.last().len() > 0
    &&& !is_modifier_name(ps.last())
}

/// Whether `p` is one of the accepted modifier names.
fn is_modifier_str(p: &str) -> (r: bool)
    ensures
        r == is_modifier_name(p@),
{
    str_eq_str(p, "Ctrl") || str_eq_str(p, "Alt") || str_eq_str(p, "Shift") || str_eq_str(
        p,
        "Meta",
    ) || str_eq_str(p, "Cmd")
}

/// Validates a hotkey combination string such as `"Ctrl+Alt+L"`.
pub fn is_valid_shortcut(shortcut: &str) -> (r: bool)
    ensures
        r == valid_shortcut_spec(shortcut@),
{
    let parts = split_parts(shortcut);
    let ghost views = parts@.map_values(|p: String| p@);
    if parts.len() < 2 {
        return false;
    }
    let mut i: usize = 0;
    while i < parts.len() - 1
        invariant
            parts@.len() >= 2,
            views == parts@.map_values(|p: String| p@),
            views == split_plus(shortcut@),
            0 <= i <= parts@.len() - 1,
            forall|k: int| 0 <= k < i ==> is_modifier_name(views[k]),
        decreases parts@.len() - 1 - i,
    {
        if !is_modifier_str(parts[i].as_str()) {
            proof {
                assert(!is_modifier_name(split_plus(shortcut@)[i as int]));
            }
            return false;
        }
        i += 1;
    }
    let main_key = &parts[parts.len() - 1];
    proof {
        assert(views.last() == main_key@);
    }
    !main_key.as_str().is_empty() && !is_modifier_str(main_key.as_str())
}

} // verus!
