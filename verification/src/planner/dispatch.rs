//! The dispatcher: compiles one resolved [`Action`] and a [`Destination`]
//! into the ordered event sequence that delivery must perform.

use vstd::prelude::*;

use crate::planner::char_events;
use crate::planner::click_events;
use crate::planner::combination_events;
use crate::planner::spec_char_events;
use crate::planner::spec_click_events;
use crate::planner::spec_combination_events;
use crate::types::Action;
use crate::types::ActionSpec;
use crate::types::Destination;
use crate::types::EventSpec;
use crate::types::KeyEvent;

verus! {

/// `Window(0)` means "no window": it is routed exactly like `Focused`.
pub open spec fn norm_destination(d: Destination) -> Destination {
    if d == Destination::Window(0isize) {
        Destination::Focused
    } else {
        d
    }
}

/// The event sequence that dispatching an action to a destination performs:
/// a single press or release for `KeyDown`/`KeyUp`, a press/release pair
/// around the optional hold for `KeyClick`, one character event for
/// `CharInput` and one per character for `TextInput`, and for `Shortcut` the
/// modifiers pressed in order, the main key clicked, and the modifiers
/// released in reverse order.
pub open spec fn spec_dispatch(a: ActionSpec, d: Destination) -> Seq<EventSpec> {
    let t = norm_destination(d);
    match a {
        ActionSpec::KeyDown(k) => seq![EventSpec::Press { target: t, key: k }],
        ActionSpec::KeyUp(k) => seq![EventSpec::Release { target: t, key: k }],
        ActionSpec::KeyClick(k, dur) => spec_click_events(t, k, dur),
        ActionSpec::CharInput(c) => seq![EventSpec::Char { target: t, ch: c }],
        ActionSpec::TextInput(s) => spec_char_events(t, s),
        ActionSpec::Shortcut(mods, k, dur) => spec_combination_events(t, mods, k, dur),
    }
}

/// Compiles `action` into the plan of events to perform at `destination`.
pub fn dispatch(action: &Action, destination: Destination) -> (r: Vec<KeyEvent>)
    ensures
        r.deep_view() == spec_dispatch(action@, destination),
{
    let t = if let Destination::Window(h) = destination {
        if h == 0 {
            Destination::Focused
        } else {
            destination
        }
    } else {
        Destination::Focused
    };
    match action {
        Action::KeyDown(k) => {
            let mut r: Vec<KeyEvent> = Vec::new();
            r.push(KeyEvent::Press { target: t, key: k.clone() });
            proof {
                assert(r.deep_view() =~= spec_dispatch(action@, destination));
            }
            r
        },
        Action::KeyUp(k) => {
            let mut r: Vec<KeyEvent> = Vec::new();
            r.push(KeyEvent::Release { target: t, key: k.clone() });
            proof {
                assert(r.deep_view() =~= spec_dispatch(action@, destination));
            }
            r
        },
        Action::KeyClick(k, dur) => click_events(t, k, *dur),
        Action::CharInput(c) => {
            let mut r: Vec<KeyEvent> = Vec::new();
            r.push(KeyEvent::Char { target: t, ch: *c });
            proof {
                assert(r.deep_view() =~= spec_dispatch(action@, destination));
            }
            r
        },
        Action::TextInput(s) => char_events(t, s.as_str()),
        Action::Shortcut(mods, k, dur) => combination_events(t, mods, k, *dur),
    }
}

} // verus!
