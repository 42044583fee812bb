//! Key and modifier name resolution.
//!
//! User-friendly aliases (`"ctrl"`, `"esc"`, `"5"`, `"up"`) are normalized by
//! a fixed table here; the final decision whether a normalized name denotes a
//! key is delegated to the external name table.

use vstd::prelude::*;
use vstd::string::StringExecFns;

use crate::error::KeyboardSenderError;
use crate::text::chars_eq_str;
use crate::text::chars_to_string;
use crate::text::lower_chars;
use crate::text::lower_seq;
use crate::text::str_chars;
use crate::types::KeyId;
use crate::types::ModifierId;

verus! {

/// The verdict of the external name table on a string: whether it names a
/// key. The table is fixed, so the verdict is a function of the name alone.
pub uninterp spec fn known_key_name(s: Seq<char>) -> bool;

/// Relies on `keyboard_codes::parse_key_ignore_case`: the external name
/// table, which decides case-insensitively against a fixed list whether a
/// string names a key.
#[verifier::external_body]
pub(crate) fn key_name_in_table(s: &str) -> (r: bool)
    ensures
        r == known_key_name(s@),
{
    keyboard_codes::parse_key_ignore_case(s).is_ok()
}

/// The canonical name that a (lowercased) key alias stands for, or `None`
/// where the string is no alias and passes through verbatim.
pub open spec fn key_alias_target(low: Seq<char>) -> Option<Seq<char>> {
    if low == "esc"@ {
        Some("Escape"@)
    } else if low == "return"@ {
        Some("Enter"@)
    } else if low == "back"@ || low == "bs"@ {
        Some("Backspace"@)
    } else if low == "del"@ {
        Some("Delete"@)
    } else if low == "ins"@ {
        Some("Insert"@)
    } else if low == "pgup"@ {
        Some("PageUp"@)
    } else if low == "pgdn"@ || low == "pagedown"@ {
        Some("PageDown"@)
    } else if low == "left"@ {
        Some("ArrowLeft"@)
    } else if low == "right"@ {
        Some("ArrowRight"@)
    } else if low == "up"@ {
        Some("ArrowUp"@)
    } else if low == "down"@ {
        Some("ArrowDown"@)
    } else if low == "0"@ {
        Some("D0"@)
    } else if low == "1"@ {
        Some("D1"@)
    } else if low == "2"@ {
        Some("D2"@)
    } else if low == "3"@ {
        Some("D3"@)
    } else if low == "4"@ {
        Some("D4"@)
    } else if low == "5"@ {
        Some("D5"@)
    } else if low == "6"@ {
        Some("D6"@)
    } else if low == "7"@ {
        Some("D7"@)
    } else if low == "8"@ {
        Some("D8"@)
    } else if low == "9"@ {
        Some("D9"@)
    } else {
        None
    }
}

/// A key name after alias normalization: the alias's canonical target, or the
/// input verbatim.
pub open spec fn normalized_key_name(s: Seq<char>) -> Seq<char> {
    match key_alias_target(lower_seq(s)) {
        Some(t) => t,
        None => s,
    }
}

/// The key name that resolution yields: the normalized name where the
/// external table knows it, and nothing otherwise.
pub open spec fn spec_resolve_key(s: Seq<char>) -> Option<Seq<char>> {
    if known_key_name(normalized_key_name(s)) {
        Some(normalized_key_name(s))
    } else {
        None
    }
}

/// Looks a lowercased name up in the key alias table.
fn key_alias_lookup(low: &Vec<char>) -> (r: Option<&'static str>)
    ensures
        match r {
            Some(l) => key_alias_target(low@) == Some(l@),
            None => key_alias_target(low@) is None,
        },
{
    if chars_eq_str(low, "esc") {
        Some("Escape")
    } else if chars_eq_str(low, "return") {
        Some("Enter")
    } else if chars_eq_str(low, "back") || chars_eq_str(low, "bs") {
        Some("Backspace")
    } else if chars_eq_str(low, "del") {
        Some("Delete")
    } else if chars_eq_str(low, "ins") {
        Some("Insert")
    } else if chars_eq_str(low, "pgup") {
        Some("PageUp")
    } else if chars_eq_str(low, "pgdn") || chars_eq_str(low, "pagedown") {
        Some("PageDown")
    } else if chars_eq_str(low, "left") {
        Some("ArrowLeft")
    } else if chars_eq_str(low, "right") {
        Some("ArrowRight")
    } else if chars_eq_str(low, "up") {
        Some("ArrowUp")
    } else if chars_eq_str(low, "down") {
        Some("ArrowDown")
    } else if chars_eq_str(low, "0") {
        Some("D0")
    } else if chars_eq_str(low, "1") {
        Some("D1")
    } else if chars_eq_str(low, "2") {
        Some("D2")
    } else if chars_eq_str(low, "3") {
        Some("D3")
    } else if chars_eq_str(low, "4") {
        Some("D4")
    } else if chars_eq_str(low, "5") {
        Some("D5")
    } else if chars_eq_str(low, "6") {
        Some("D6")
    } else if chars_eq_str(low, "7") {
        Some("D7")
    } else if chars_eq_str(low, "8") {
        Some("D8")
    } else if chars_eq_str(low, "9") {
        Some("D9")
    } else {
        None
    }
}

/// Resolves a key name given as characters; `None` where the external table
/// does not know the normalized name.
pub(crate) fn resolve_key_chars(v: &Vec<char>) -> (r: Option<KeyId>)
    ensures
        match r {
            Some(k) => spec_resolve_key(v@) == Some(k@),
            None => spec_resolve_key(v@) is None,
        },
{
    let low = lower_chars(v);
    match key_alias_lookup(&low) {
        Some(lit) => {
            if key_name_in_table(lit) {
                Some(KeyId::from_name(String::from_str(lit)))
            } else {
                None
            }
        },
        None => {
            let s = chars_to_string(v);
            if key_name_in_table(s.as_str()) {
                Some(KeyId::from_name(s))
            } else {
                None
            }
        },
    }
}

/// Resolves a user-facing key name to its canonical identifier.
///
/// The alias table maps common spellings (case-insensitively) to canonical
/// names; anything else is passed to the external name table verbatim. An
/// unknown name fails with `UnsupportedKey` carrying the input.
pub fn resolve_key(name: &str) -> (r: Result<KeyId, KeyboardSenderError>)
    ensures
        match spec_resolve_key(name@) {
            Some(n) => r matches Ok(k) && k@ == n,
            None => r matches Err(e) && e@ == crate::error::ErrorSpec::UnsupportedKey(name@),
        },
{
    let v = str_chars(name);
    match resolve_key_chars(&v) {
        Some(k) => Ok(k),
        None => Err(KeyboardSenderError::UnsupportedKey(String::from_str(name))),
    }
}

/// The modifier that a name denotes, case-insensitively, across canonical
/// names and their aliases; `None` where nothing matches.
pub open spec fn spec_resolve_modifier(s: Seq<char>) -> Option<ModifierId> {
    let low = lower_seq(s);
    if low == "alt"@ || low == "altgr"@ || low == "opt"@ || low == "option"@ {
        Some(ModifierId::Alt)
    } else if low == "control"@ || low == "ctrl"@ || low == "ctl"@ {
        Some(ModifierId::Control)
    } else if low == "shift"@ || low == "shft"@ {
        Some(ModifierId::Shift)
    } else if low == "meta"@ || low == "win"@ || low == "windows"@ || low == "cmd"@ || low
        == "command"@ || low == "super"@ {
        Some(ModifierId::Meta)
    } else if low == "leftalt"@ || low == "lalt"@ || low == "lopt"@ || low == "loption"@ {
        Some(ModifierId::LeftAlt)
    } else if low == "rightalt"@ || low == "ralt"@ || low == "ropt"@ || low == "roption"@ {
        Some(ModifierId::RightAlt)
    } else if low == "leftcontrol"@ || low == "lctrl"@ || low == "lctl"@ {
        Some(ModifierId::LeftControl)
    } else if low == "rightcontrol"@ || low == "rctrl"@ || low == "rctl"@ {
        Some(ModifierId::RightControl)
    } else if low == "leftshift"@ || low == "lshift"@ || low == "lshft"@ {
        Some(ModifierId::LeftShift)
    } else if low == "rightshift"@ || low == "rshift"@ || low == "rshft"@ {
        Some(ModifierId::RightShift)
    } else if low == "leftmeta"@ || low == "lmeta"@ || low == "lwin"@ || low == "lcmd"@ || low
        == "lcommand"@ {
        Some(ModifierId::LeftMeta)
    } else if low == "rightmeta"@ || low == "rmeta"@ || low == "rwin"@ || low == "rcmd"@ || low
        == "rcommand"@ {
        Some(ModifierId::RightMeta)
    } else {
        None
    }
}

/// Resolves a modifier name given as characters; `None` where nothing in the
/// fixed modifier table matches.
pub(crate) fn resolve_modifier_chars(v: &Vec<char>) -> (r: Option<ModifierId>)
    ensures
        r == spec_resolve_modifier(v@),
{
    let low = lower_chars(v);
    if chars_eq_str(&low, "alt") || chars_eq_str(&low, "altgr") || chars_eq_str(&low, "opt")
        || chars_eq_str(&low, "option") {
        Some(ModifierId::Alt)
    } else if chars_eq_str(&low, "control") || chars_eq_str(&low, "ctrl") || chars_eq_str(
        &low,
        "ctl",
    ) {
        Some(ModifierId::Control)
    } else if chars_eq_str(&low, "shift") || chars_eq_str(&low, "shft") {
        Some(ModifierId::Shift)
    } else if chars_eq_str(&low, "meta") || chars_eq_str(&low, "win") || chars_eq_str(
        &low,
        "windows",
    ) || chars_eq_str(&low, "cmd") || chars_eq_str(&low, "command") || chars_eq_str(
        &low,
        "super",
    ) {
        Some(ModifierId::Meta)
    } else if chars_eq_str(&low, "leftalt") || chars_eq_str(&low, "lalt") || chars_eq_str(
        &low,
        "lopt",
    ) || chars_eq_str(&low, "loption") {
        Some(ModifierId::LeftAlt)
    } else if chars_eq_str(&low, "rightalt") || chars_eq_str(&low, "ralt") || chars_eq_str(
        &low,
        "ropt",
    ) || chars_eq_str(&low, "roption") {
        Some(ModifierId::RightAlt)
    } else if chars_eq_str(&low, "leftcontrol") || chars_eq_str(&low, "lctrl") || chars_eq_str(
        &low,
        "lctl",
    ) {
        Some(ModifierId::LeftControl)
    } else if chars_eq_str(&low, "rightcontrol") || chars_eq_str(&low, "rctrl") || chars_eq_str(
        &low,
        "rctl",
    ) {
        Some(ModifierId::RightControl)
    } else if chars_eq_str(&low, "leftshift") || chars_eq_str(&low, "lshift") || chars_eq_str(
        &low,
        "lshft",
    ) {
        Some(ModifierId::LeftShift)
    } else if chars_eq_str(&low, "rightshift") || chars_eq_str(&low, "rshift") || chars_eq_str(
        &low,
        "rshft",
    ) {
        Some(ModifierId::RightShift)
    } else if chars_eq_str(&low, "leftmeta") || chars_eq_str(&low, "lmeta") || chars_eq_str(
        &low,
        "lwin",
    ) || chars_eq_str(&low, "lcmd") || chars_eq_str(&low, "lcommand") {
        Some(ModifierId::LeftMeta)
    } else if chars_eq_str(&low, "rightmeta") || chars_eq_str(&low, "rmeta") || chars_eq_str(
        &low,
        "rwin",
    ) || chars_eq_str(&low, "rcmd") || chars_eq_str(&low, "rcommand") {
        Some(ModifierId::RightMeta)
    } else {
        None
    }
}

/// Resolves a user-facing modifier name to its canonical identifier.
///
/// Canonical names and their aliases are recognized case-insensitively; an
/// unknown name fails with `UnsupportedModifier` carrying the input.
pub fn resolve_modifier(name: &str) -> (r: Result<ModifierId, KeyboardSenderError>)
    ensures
        match spec_resolve_modifier(name@) {
            Some(m) => r matches Ok(g) && g == m,
            None => r matches Err(e) && e@ == crate::error::ErrorSpec::UnsupportedModifier(name@),
        },
{
    let v = str_chars(name);
    match resolve_modifier_chars(&v) {
        Some(m) => Ok(m),
        None => Err(KeyboardSenderError::UnsupportedModifier(String::from_str(name))),
    }
}

} // verus!
