//! Ready-made plans for the most common special keys.

use vstd::prelude::*;
use vstd::string::StringExecFns;

use crate::planner::global::key_click;
use crate::planner::spec_click_events;
use crate::types::Destination;
use crate::types::KeyEvent;
use crate::types::KeyId;

verus! {

/// Plans one click of the `Tab` key at the focused window.
pub fn send_tab() -> (r: Vec<KeyEvent>)
    ensures
        r.deep_view() == spec_click_events(Destination::Focused, "Tab"@, None),
{
    key_click(&KeyId::from_name(String::from_str("Tab")), None)
}

/// Plans one click of the `Enter` key at the focused window.
pub fn send_enter() -> (r: Vec<KeyEvent>)
    ensures
        r.deep_view() == spec_click_events(Destination::Focused, "Enter"@, None),
{
    key_click(&KeyId::from_name(String::from_str("Enter")), None)
}

/// Plans one click of the `Escape` key at the focused window.
pub fn send_escape() -> (r: Vec<KeyEvent>)
    ensures
        r.deep_view() == spec_click_events(Destination::Focused, "Escape"@, None),
{
    key_click(&KeyId::from_name(String::from_str("Escape")), None)
}

/// Plans one click of the `Space` key at the focused window.
pub fn send_space() -> (r: Vec<KeyEvent>)
    ensures
        r.deep_view() == spec_click_events(Destination::Focused, "Space"@, None),
{
    key_click(&KeyId::from_name(String::from_str("Space")), None)
}

/// Plans one click of the `Backspace` key at the focused window.
pub fn send_backspace() -> (r: Vec<KeyEvent>)
    ensures
        r.deep_view() == spec_click_events(Destination::Focused, "Backspace"@, None),
{
    key_click(&KeyId::from_name(String::from_str("Backspace")), None)
}

/// Plans one click of the `Delete` key at the focused window.
pub fn send_delete() -> (r: Vec<KeyEvent>)
    ensures
        r.deep_view() == spec_click_events(Destination::Focused, "Delete"@, None),
{
    key_click(&KeyId::from_name(String::from_str("Delete")), None)
}

} // verus!
