//! Planning of events targeted at one specific window, identified by its
//! handle. The handle is used exactly as given; routing a `0` handle to the
//! focused window is the dispatcher's job.

use vstd::prelude::*;

use crate::planner::char_events;
use crate::planner::click_events;
use crate::planner::spec_char_events;
use crate::planner::spec_click_events;
use crate::types::Destination;
use crate::types::DurationValue;
use crate::types::EventSpec;
use crate::types::KeyEvent;
use crate::types::KeyId;
use crate::types::WindowHandle;

verus! {

/// Plans a press (and hold) of one key at the given window.
pub fn send_key_down_to_window(hwnd: WindowHandle, key: &KeyId) -> (r: Vec<KeyEvent>)
    ensures
        r.deep_view() == seq![
            EventSpec::Press { target: Destination::Window(hwnd), key: key@ },
        ],
{
    let mut r: Vec<KeyEvent> = Vec::new();
    r.push(KeyEvent::Press { target: Destination::Window(hwnd), key: key.clone() });
    proof {
        assert(r.deep_view() =~= seq![
            EventSpec::Press { target: Destination::Window(hwnd), key: key@ },
        ]);
    }
    r
}

/// Plans a release of one key at the given window.
pub fn send_key_up_to_window(hwnd: WindowHandle, key: &KeyId) -> (r: Vec<KeyEvent>)
    ensures
        r.deep_view() == seq![
            EventSpec::Release { target: Destination::Window(hwnd), key: key@ },
        ],
{
    let mut r: Vec<KeyEvent> = Vec::new();
    r.push(KeyEvent::Release { target: Destination::Window(hwnd), key: key.clone() });
    proof {
        assert(r.deep_view() =~= seq![
            EventSpec::Release { target: Destination::Window(hwnd), key: key@ },
        ]);
    }
    r
}

/// Plans one click of a key at the given window: press, an optional hold,
/// release.
pub fn send_key_click_to_window(
    hwnd: WindowHandle,
    key: &KeyId,
    press_duration: Option<DurationValue>,
) -> (r: Vec<KeyEvent>)
    ensures
        r.deep_view() == spec_click_events(Destination::Window(hwnd), key@, press_duration),
{
    click_events(Destination::Window(hwnd), key, press_duration)
}

/// Plans the injection of one literal character at the given window.
pub fn send_char_to_window(hwnd: WindowHandle, c: char) -> (r: Vec<KeyEvent>)
    ensures
        r.deep_view() == seq![
            EventSpec::Char { target: Destination::Window(hwnd), ch: c },
        ],
{
    let mut r: Vec<KeyEvent> = Vec::new();
    r.push(KeyEvent::Char { target: Destination::Window(hwnd), ch: c });
    proof {
        assert(r.deep_view() =~= seq![
            EventSpec::Char { target: Destination::Window(hwnd), ch: c },
        ]);
    }
    r
}

/// Plans the injection of a string at the given window, one character event
/// per character, in order.
pub fn type_string_to_window(hwnd: WindowHandle, text: &str) -> (r: Vec<KeyEvent>)
    ensures
        r.deep_view() == spec_char_events(Destination::Window(hwnd), text@),
{
    char_events(Destination::Window(hwnd), text)
}

} // verus!
