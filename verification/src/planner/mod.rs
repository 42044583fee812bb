//! Core planning of keyboard event sequences.
//!
//! Every function here compiles an intent (click a key, hold a combination,
//! type a string) into the ordered sequence of primitive [`KeyEvent`]s that an
//! injection backend must perform.

pub mod dispatch;
pub mod global;
pub mod window_target;

use vstd::prelude::*;
use vstd::string::StrSliceExecFns;
use vstd::string::StringExecFns;

use crate::types::Destination;
use crate::types::DurationValue;
use crate::types::EventSpec;
use crate::types::KeyEvent;
use crate::types::KeyId;
use crate::types::ModifierId;

verus! {

/// The key name that stands for a modifier when the modifier itself must be
/// pressed or released: left/right variants collapse onto the generic role.
pub open spec fn modifier_key_name(m: ModifierId) -> Seq<char> {
    match m {
        ModifierId::Shift | ModifierId::LeftShift | ModifierId::RightShift => "Shift"@,
        ModifierId::Control | ModifierId::LeftControl | ModifierId::RightControl => "Control"@,
        ModifierId::Alt | ModifierId::LeftAlt | ModifierId::RightAlt => "Alt"@,
        ModifierId::Meta | ModifierId::LeftMeta | ModifierId::RightMeta => "Meta"@,
    }
}

/// The events of one click: press, an optional wait, release.
pub open spec fn spec_click_events(t: Destination, key: Seq<char>, dur: Option<
    DurationValue,
>) -> Seq<EventSpec> {
    match dur {
        Some(d) => seq![
            EventSpec::Press { target: t, key },
            EventSpec::Wait { duration: d },
            EventSpec::Release { target: t, key },
        ],
        None => seq![
            EventSpec::Press { target: t, key },
            EventSpec::Release { target: t, key },
        ],
    }
}

/// One character-injection event.
pub open spec fn spec_char_event(t: Destination, c: char) -> EventSpec {
    EventSpec::Char { target: t, ch: c }
}

/// The press event of a modifier's key.
pub open spec fn spec_mod_press(t: Destination, m: ModifierId) -> EventSpec {
    EventSpec::Press { target: t, key: modifier_key_name(m) }
}

/// The release event of a modifier's key.
pub open spec fn spec_mod_release(t: Destination, m: ModifierId) -> EventSpec {
    EventSpec::Release { target: t, key: modifier_key_name(m) }
}

/// One character-injection event per character of the text, in order.
pub open spec fn spec_char_events(t: Destination, text: Seq<char>) -> Seq<EventSpec> {
    text.map_values(|c: char| spec_char_event(t, c))
}

/// Presses of the modifiers' keys, in the listed order.
pub open spec fn spec_press_modifiers(t: Destination, mods: Seq<ModifierId>) -> Seq<EventSpec> {
    mods.map_values(|m: ModifierId| spec_mod_press(t, m))
}

/// Releases of the modifiers' keys, in reverse of the listed order.
pub open spec fn spec_release_modifiers_rev(t: Destination, mods: Seq<ModifierId>) -> Seq<
    EventSpec,
> {
    mods.reverse().map_values(|m: ModifierId| spec_mod_release(t, m))
}

/// The events of one combination: modifiers pressed in order, one click of
/// the main key (with the optional hold), modifiers released in reverse
/// order.
pub open spec fn spec_combination_events(
    t: Destination,
    mods: Seq<ModifierId>,
    key: Seq<char>,
    dur: Option<DurationValue>,
) -> Seq<EventSpec> {
    spec_press_modifiers(t, mods) + spec_click_events(t, key, dur) + spec_release_modifiers_rev(
        t,
        mods,
    )
}

/// Ordering law of combinations: in the plan of a combination the modifiers
/// are pressed first, in the listed order; then the main key is pressed and
/// released, around the optional wait; then each modifier is released, in
/// reverse order — the release of the `i`-th modifier stands mirror-symmetric
/// to its press, so no modifier is ever released while a later-pressed one is
/// still down.
pub proof fn lemma_combination_event_order(
    t: Destination,
    mods: Seq<ModifierId>,
    key: Seq<char>,
    dur: Option<DurationValue>,
)
    ensures
        ({
            let p = spec_combination_events(t, mods, key, dur);
            let n = mods.len() as int;
            &&& p.len() == 2 * n + (if dur is Some {
                3int
            } else {
                2int
            })
            &&& forall|i: int| 0 <= i < n ==> p[i] == spec_mod_press(t, mods[i])
            &&& p[n] == EventSpec::Press { target: t, key }
            &&& (dur matches Some(d) ==> p[n + 1] == EventSpec::Wait { duration: d })
            &&& p[p.len() - n - 1] == EventSpec::Release { target: t, key }
            &&& forall|i: int| 0 <= i < n ==> p[p.len() - 1 - i] == spec_mod_release(t, mods[i])
        }),
{
    let p = spec_combination_events(t, mods, key, dur);
    let n = mods.len() as int;
    let presses = spec_press_modifiers(t, mods);
    let click = spec_click_events(t, key, dur);
    let releases = spec_release_modifiers_rev(t, mods);
    assert(presses.len() == n);
    assert(releases.len() == n);
    assert forall|i: int| 0 <= i < n implies p[p.len() - 1 - i] == spec_mod_release(
        t,
        mods[i],
    ) by {
        assert(p[p.len() - 1 - i] == releases[n - 1 - i]);
        assert(mods.reverse()[n - 1 - i] == mods[i]);
    }
}

/// Converts a modifier into the key that is pressed and released for it:
/// left/right variants collapse onto the generic `Shift`, `Control`, `Alt` or
/// `Meta` key.
pub fn modifier_to_key(modifier: ModifierId) -> (r: KeyId)
    ensures
        r@ == modifier_key_name(modifier),
{
    match modifier {
        ModifierId::Shift | ModifierId::LeftShift | ModifierId::RightShift => KeyId::from_name(
            String::from_str("Shift"),
        ),
        ModifierId::Control | ModifierId::LeftControl | ModifierId::RightControl => {
            KeyId::from_name(String::from_str("Control"))
        },
        ModifierId::Alt | ModifierId::LeftAlt | ModifierId::RightAlt => KeyId::from_name(
            String::from_str("Alt"),
        ),
        ModifierId::Meta | ModifierId::LeftMeta | ModifierId::RightMeta => KeyId::from_name(
            String::from_str("Meta"),
        ),
    }
}

/// Builds the events of one click of `key` at `t`, holding for `dur` if given.
pub(crate) fn click_events(t: Destination, key: &KeyId, dur: Option<DurationValue>) -> (r: Vec<
    KeyEvent,
>)
    ensures
        r.deep_view() == spec_click_events(t, key@, dur),
{
    let mut r: Vec<KeyEvent> = Vec::new();
    r.push(KeyEvent::Press { target: t, key: key.clone() });
    if let Some(d) = dur {
        r.push(KeyEvent::Wait { duration: d });
    }
    r.push(KeyEvent::Release { target: t, key: key.clone() });
    proof {
        assert(r.deep_view() =~= spec_click_events(t, key@, dur));
    }
    r
}

/// Builds one character-injection event per character of `text` at `t`.
pub(crate) fn char_events(t: Destination, text: &str) -> (r: Vec<KeyEvent>)
    ensures
        r.deep_view() == spec_char_events(t, text@),
{
    let n = text.unicode_len();
    let mut r: Vec<KeyEvent> = Vec::new();
    let mut i: usize = 0;
    while i < n
        invariant
            i <= n,
            n == text@.len(),
            r.deep_view() =~= spec_char_events(t, text@.subrange(0, i as int)),
        decreases n - i,
    {
        let ghost prev = r.deep_view();
        r.push(KeyEvent::Char { target: t, ch: text.get_char(i) });
        proof {
            assert(r.deep_view() =~= prev.push(
                EventSpec::Char { target: t, ch: text@[i as int] },
            ));
            assert(r.deep_view() =~= spec_char_events(t, text@.subrange(0, i + 1)));
        }
        i = i + 1;
    }
    proof {
        assert(text@.subrange(0, n as int) =~= text@);
    }
    r
}

/// Builds the full event sequence of one combination at `t`.
pub(crate) fn combination_events(
    t: Destination,
    modifiers: &Vec<ModifierId>,
    key: &KeyId,
    dur: Option<DurationValue>,
) -> (r: Vec<KeyEvent>)
    ensures
        r.deep_view() == spec_combination_events(t, modifiers@, key@, dur),
{
    let mut r: Vec<KeyEvent> = Vec::new();
    let mut i: usize = 0;
    while i < modifiers.len()
        invariant
            i <= modifiers.len(),
            r.deep_view() =~= spec_press_modifiers(t, modifiers@.subrange(0, i as int)),
        decreases modifiers.len() - i,
    {
        let ghost prev = r.deep_view();
        r.push(KeyEvent::Press { target: t, key: modifier_to_key(modifiers[i]) });
        proof {
            assert(r.deep_view() =~= prev.push(spec_mod_press(t, modifiers@[i as int])));
            assert(r.deep_view() =~= spec_press_modifiers(
                t,
                modifiers@.subrange(0, i + 1),
            ));
        }
        i = i + 1;
    }
    proof {
        assert(modifiers@.subrange(0, modifiers@.len() as int) =~= modifiers@);
    }
    r.push(KeyEvent::Press { target: t, key: key.clone() });
    if let Some(d) = dur {
        r.push(KeyEvent::Wait { duration: d });
    }
    r.push(KeyEvent::Release { target: t, key: key.clone() });
    proof {
        assert(r.deep_view() =~= spec_press_modifiers(t, modifiers@) + spec_click_events(
            t,
            key@,
            dur,
        ));
    }
    let ghost mid = r.deep_view();
    let mut j: usize = modifiers.len();
    while j > 0
        invariant
            j <= modifiers.len(),
            r.deep_view() =~= mid + spec_release_modifiers_rev(
                t,
                modifiers@.subrange(j as int, modifiers@.len() as int),
            ),
        decreases j,
    {
        j = j - 1;
        let ghost prev = r.deep_view();
        r.push(KeyEvent::Release { target: t, key: modifier_to_key(modifiers[j]) });
        proof {
            assert(r.deep_view() =~= prev.push(spec_mod_release(t, modifiers@[j as int])));
            let tail = modifiers@.subrange(j as int, modifiers@.len() as int);
            assert(tail.reverse().drop_last() =~= modifiers@.subrange(
                j + 1,
                modifiers@.len() as int,
            ).reverse());
            assert(r.deep_view() =~= mid + spec_release_modifiers_rev(t, tail));
        }
    }
    proof {
        assert(modifiers@.subrange(0, modifiers@.len() as int) =~= modifiers@);
        assert(r.deep_view() =~= spec_combination_events(t, modifiers@, key@, dur));
    }
    r
}

} // verus!
