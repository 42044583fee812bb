//! Planning of globally delivered events: every event here goes to whichever
//! window has input focus.

use vstd::prelude::*;

use crate::planner::char_events;
use crate::planner::click_events;
use crate::planner::combination_events;
use crate::planner::spec_char_events;
use crate::planner::spec_click_events;
use crate::planner::spec_combination_events;
use crate::types::Destination;
use crate::types::DurationValue;
use crate::types::EventSpec;
use crate::types::KeyEvent;
use crate::types::KeyId;
use crate::types::ModifierId;

verus! {

/// Plans a press (and hold) of one key at the focused window.
pub fn key_down(key: &KeyId) -> (r: Vec<KeyEvent>)
    ensures
        r.deep_view() == seq![
            EventSpec::Press { target: Destination::Focused, key: key@ },
        ],
{
    let mut r: Vec<KeyEvent> = Vec::new();
    r.push(KeyEvent::Press { target: Destination::Focused, key: key.clone() });
    proof {
        assert(r.deep_view() =~= seq![
            EventSpec::Press { target: Destination::Focused, key: key@ },
        ]);
    }
    r
}

/// Plans a release of one key at the focused window.
pub fn key_up(key: &KeyId) -> (r: Vec<KeyEvent>)
    ensures
        r.deep_view() == seq![
            EventSpec::Release { target: Destination::Focused, key: key@ },
        ],
{
    let mut r: Vec<KeyEvent> = Vec::new();
    r.push(KeyEvent::Release { target: Destination::Focused, key: key.clone() });
    proof {
        assert(r.deep_view() =~= seq![
            EventSpec::Release { target: Destination::Focused, key: key@ },
        ]);
    }
    r
}

/// Plans one click of a key at the focused window: press, an optional hold,
/// release.
pub fn key_click(key: &KeyId, press_duration: Option<DurationValue>) -> (r: Vec<KeyEvent>)
    ensures
        r.deep_view() == spec_click_events(Destination::Focused, key@, press_duration),
{
    click_events(Destination::Focused, key, press_duration)
}

/// Plans the injection of one literal character at the focused window.
pub fn send_char(c: char) -> (r: Vec<KeyEvent>)
    ensures
        r.deep_view() == seq![EventSpec::Char { target: Destination::Focused, ch: c }],
{
    let mut r: Vec<KeyEvent> = Vec::new();
    r.push(KeyEvent::Char { target: Destination::Focused, ch: c });
    proof {
        assert(r.deep_view() =~= seq![
            EventSpec::Char { target: Destination::Focused, ch: c },
        ]);
    }
    r
}

/// Plans the injection of a string at the focused window, one character
/// event per character, in order and with no delay between them.
pub fn type_string(text: &str) -> (r: Vec<KeyEvent>)
    ensures
        r.deep_view() == spec_char_events(Destination::Focused, text@),
{
    char_events(Destination::Focused, text)
}

/// Plans one combination at the focused window: the modifiers are pressed in
/// the listed order before the main key, held, and released in reverse order
/// after the main key is released.
pub fn press_combination(
    modifiers: &Vec<ModifierId>,
    key: &KeyId,
    press_duration: Option<DurationValue>,
) -> (r: Vec<KeyEvent>)
    ensures
        r.deep_view() == spec_combination_events(
            Destination::Focused,
            modifiers@,
            key@,
            press_duration,
        ),
{
    combination_events(Destination::Focused, modifiers, key, press_duration)
}

} // verus!
