//! The smart classifier: given one opaque string with no structural markers,
//! decides whether it is a shortcut, a single literal character, a named key
//! or modifier, or literal text, and plans the matching events.

use vstd::prelude::*;
use vstd::string::StrSliceExecFns;
use vstd::string::StringExecFns;

use crate::planner::global::key_click;
use crate::planner::global::press_combination;
use crate::planner::global::type_string;
use crate::planner::modifier_key_name;
use crate::planner::modifier_to_key;
use crate::planner::spec_char_event;
use crate::planner::spec_char_events;
use crate::planner::spec_click_events;
use crate::planner::spec_combination_events;
use crate::parser::shortcut::decompose_shortcut;
use crate::parser::shortcut::spec_decompose;
use crate::parser::shortcut::split_plus;
use crate::parser::shortcut::split_plus_from;
use crate::resolver::key_name_in_table;
use crate::resolver::known_key_name;
use crate::resolver::resolve_key_chars;
use crate::resolver::resolve_modifier_chars;
use crate::resolver::spec_resolve_key;
use crate::resolver::spec_resolve_modifier;
use crate::text::chars_to_string;
use crate::text::contains_char;
use crate::text::lower_seq;
use crate::text::spec_trim;
use crate::text::spec_upper_char;
use crate::text::str_chars;
use crate::text::to_upper_char;
use crate::text::trim_chars;
use crate::text::chars_eq_str;
use crate::types::Destination;
use crate::types::DurationValue;
use crate::types::EventSpec;
use crate::types::KeyEvent;
use crate::types::KeyId;
use crate::types::ModifierId;
use crate::error::KeyboardSenderError;

verus! {

/// The names of the special keys that the single-character detection must
/// not mistake for a character, compared case-insensitively.
pub open spec fn spec_is_special_key_name(s: Seq<char>) -> bool {
    let low = lower_seq(s);
    low == "enter"@ || low == "space"@ || low == "tab"@ || low == "esc"@ || low == "escape"@ || low
        == "backspace"@ || low == "delete"@ || low == "insert"@ || low == "home"@ || low == "end"@
        || low == "pageup"@ || low == "pagedown"@ || low == "up"@ || low == "down"@ || low
        == "left"@ || low == "right"@ || low == "f1"@ || low == "f2"@ || low == "f3"@ || low
        == "f4"@ || low == "f5"@ || low == "f6"@ || low == "f7"@ || low == "f8"@ || low == "f9"@
        || low == "f10"@ || low == "f11"@ || low == "f12"@
}

/// Tests a character vector against the special-key-name list.
fn is_special_chars(v: &Vec<char>) -> (r: bool)
    ensures
        r == spec_is_special_key_name(v@),
{
    let low = crate::text::lower_chars(v);
    chars_eq_str(&low, "enter") || chars_eq_str(&low, "space") || chars_eq_str(&low, "tab")
        || chars_eq_str(&low, "esc") || chars_eq_str(&low, "escape") || chars_eq_str(
        &low,
        "backspace",
    ) || chars_eq_str(&low, "delete") || chars_eq_str(&low, "insert") || chars_eq_str(&low, "home")
        || chars_eq_str(&low, "end") || chars_eq_str(&low, "pageup") || chars_eq_str(
        &low,
        "pagedown",
    ) || chars_eq_str(&low, "up") || chars_eq_str(&low, "down") || chars_eq_str(&low, "left")
        || chars_eq_str(&low, "right") || chars_eq_str(&low, "f1") || chars_eq_str(&low, "f2")
        || chars_eq_str(&low, "f3") || chars_eq_str(&low, "f4") || chars_eq_str(&low, "f5")
        || chars_eq_str(&low, "f6") || chars_eq_str(&low, "f7") || chars_eq_str(&low, "f8")
        || chars_eq_str(&low, "f9") || chars_eq_str(&low, "f10") || chars_eq_str(&low, "f11")
        || chars_eq_str(&low, "f12")
}

/// Tests whether a string is the name of a known special key,
/// case-insensitively.
pub fn is_special_key_name(input: &str) -> (r: bool)
    ensures
        r == spec_is_special_key_name(input@),
{
    let v = str_chars(input);
    is_special_chars(&v)
}

/// What single-character detection yields: the one character of the trimmed
/// input, provided the trimmed input is exactly one character long and is
/// not itself a special key name. An input that trims to empty yields
/// nothing.
pub open spec fn spec_detect_single_char(s: Seq<char>) -> Option<char> {
    let t = spec_trim(s);
    if t.len() == 1 && !spec_is_special_key_name(t) {
        Some(t[0])
    } else {
        None
    }
}

/// Detects whether the input is a single literal character.
pub fn detect_single_char(input: &str) -> (r: Option<char>)
    ensures
        r == spec_detect_single_char(input@),
{
    let v = str_chars(input);
    let t = trim_chars(&v);
    if t.len() == 1 && !is_special_chars(&t) {
        Some(t[0])
    } else {
        None
    }
}

/// The events that typing one character produces: an ASCII letter clicks the
/// key named by its uppercase form, an ASCII digit the key named `D<digit>`
/// (either falling back to a literal character where the name table does not
/// know the name); space, newline and tab click `Space`, `Enter` and `Tab`;
/// every other character is injected literally.
pub open spec fn spec_type_char(c: char) -> Seq<EventSpec> {
    let u = c as int;
    let t = Destination::Focused;
    if (65 <= u && u <= 90) || (97 <= u && u <= 122) {
        let name = seq![spec_upper_char(c)];
        if known_key_name(name) {
            spec_click_events(t, name, None)
        } else {
            seq![spec_char_event(t, c)]
        }
    } else if 48 <= u && u <= 57 {
        let name = seq!['D', c];
        if known_key_name(name) {
            spec_click_events(t, name, None)
        } else {
            seq![spec_char_event(t, c)]
        }
    } else if c == ' ' {
        spec_click_events(t, "Space"@, None)
    } else if c == '\n' {
        spec_click_events(t, "Enter"@, None)
    } else if c == '\t' {
        spec_click_events(t, "Tab"@, None)
    } else {
        seq![spec_char_event(t, c)]
    }
}

/// Plans the typing of one character at the focused window.
pub(crate) fn type_char_auto(c: char) -> (r: Vec<KeyEvent>)
    ensures
        r.deep_view() == spec_type_char(c),
{
    let u = c as u32;
    if (65 <= u && u <= 90) || (97 <= u && u <= 122) {
        let mut name: Vec<char> = Vec::new();
        name.push(to_upper_char(c));
        proof {
            assert(name@ =~= seq![spec_upper_char(c)]);
        }
        let s = chars_to_string(&name);
        if key_name_in_table(s.as_str()) {
            key_click(&KeyId::from_name(s), None)
        } else {
            char_event_plan(c)
        }
    } else if 48 <= u && u <= 57 {
        let mut name: Vec<char> = Vec::new();
        name.push('D');
        name.push(c);
        proof {
            assert(name@ =~= seq!['D', c]);
        }
        let s = chars_to_string(&name);
        if key_name_in_table(s.as_str()) {
            key_click(&KeyId::from_name(s), None)
        } else {
            char_event_plan(c)
        }
    } else if c == ' ' {
        key_click(&KeyId::from_name(string_lit("Space")), None)
    } else if c == '\n' {
        key_click(&KeyId::from_name(string_lit("Enter")), None)
    } else if c == '\t' {
        key_click(&KeyId::from_name(string_lit("Tab")), None)
    } else {
        char_event_plan(c)
    }
}

/// An owned copy of a string literal.
fn string_lit(s: &str) -> (r: String)
    ensures
        r@ == s@,
{
    String::from_str(s)
}

/// The plan of one literal character at the focused window.
fn char_event_plan(c: char) -> (r: Vec<KeyEvent>)
    ensures
        r.deep_view() == seq![spec_char_event(Destination::Focused, c)],
{
    let mut r: Vec<KeyEvent> = Vec::new();
    r.push(KeyEvent::Char { target: Destination::Focused, ch: c });
    proof {
        assert(r.deep_view() =~= seq![spec_char_event(Destination::Focused, c)]);
    }
    r
}

/// The tolerant second pass over a shortcut's tokens: each raw token is tried
/// first as a modifier, then as a key, and skipped where it is neither; the
/// last key token wins.
pub open spec fn spec_fallback_loop(
    toks: Seq<Seq<char>>,
    i: int,
    mods: Seq<ModifierId>,
    main: Option<Seq<char>>,
) -> (Seq<ModifierId>, Option<Seq<char>>)
    decreases toks.len() - i,
{
    if i < 0 || i >= toks.len() {
        (mods, main)
    } else {
        match spec_resolve_modifier(toks[i]) {
            Some(m) => spec_fallback_loop(toks, i + 1, mods.push(m), main),
            None => match spec_resolve_key(toks[i]) {
                Some(k) => spec_fallback_loop(toks, i + 1, mods, Some(k)),
                None => spec_fallback_loop(toks, i + 1, mods, main),
            },
        }
    }
}

/// What typing a `+`-bearing string yields: the full decomposition's
/// combination where it succeeds; else the tolerant pass's combination where
/// that pass still finds a main key; else the whole string as literal text.
pub open spec fn spec_type_shortcut(s: Seq<char>) -> Seq<EventSpec> {
    match spec_decompose(s) {
        Ok((ms, k)) => spec_combination_events(Destination::Focused, ms, k, None),
        Err(_) => {
            let (ms, main) = spec_fallback_loop(split_plus_from(s, 0), 0, Seq::empty(), None);
            match main {
                Some(k) => spec_combination_events(Destination::Focused, ms, k, None),
                None => spec_char_events(Destination::Focused, s),
            }
        },
    }
}

/// The view of an optional resolved key.
spec fn opt_key_view(k: Option<KeyId>) -> Option<Seq<char>> {
    match k {
        Some(key) => Some(key@),
        None => None,
    }
}

/// Plans the typing of a `+`-bearing string.
fn type_shortcut_auto(input: &str) -> (r: Vec<KeyEvent>)
    ensures
        r.deep_view() == spec_type_shortcut(input@),
{
    match decompose_shortcut(input) {
        Ok((mods, key)) => press_combination(&mods, &key, None),
        Err(_) => {
            let v = str_chars(input);
            let toks = split_plus(&v);
            let mut mods: Vec<ModifierId> = Vec::new();
            let mut main: Option<KeyId> = None;
            let mut i: usize = 0;
            proof {
                assert(mods@ =~= Seq::<ModifierId>::empty());
            }
            while i < toks.len()
                invariant
                    i <= toks@.len(),
                    toks.deep_view() == split_plus_from(input@, 0),
                    spec_fallback_loop(toks.deep_view(), 0, Seq::empty(), None)
                        == spec_fallback_loop(
                        toks.deep_view(),
                        i as int,
                        mods@,
                        opt_key_view(main),
                    ),
                decreases toks@.len() - i,
            {
                proof {
                    assert(toks.deep_view()[i as int] == toks@[i as int]@);
                }
                match resolve_modifier_chars(&toks[i]) {
                    Some(m) => {
                        mods.push(m);
                    },
                    None => {
                        match resolve_key_chars(&toks[i]) {
                            Some(k) => {
                                main = Some(k);
                            },
                            None => {},
                        }
                    },
                }
                i = i + 1;
            }
            match main {
                Some(k) => press_combination(&mods, &k, None),
                None => type_string(input),
            }
        },
    }
}

/// What smart classification of one input yields, first match wins: the
/// empty input is a no-op; an input holding `+` is treated as a shortcut;
/// an input that trims to a single non-special character types that
/// character; a trimmed input naming a modifier clicks that modifier's key,
/// one naming a key clicks it; everything else is typed as literal text,
/// untrimmed.
pub open spec fn spec_type_auto(s: Seq<char>) -> Seq<EventSpec> {
    if s.len() == 0 {
        Seq::empty()
    } else if s.contains('+') {
        spec_type_shortcut(s)
    } else {
        match spec_detect_single_char(s) {
            Some(c) => spec_type_char(c),
            None => {
                let t = spec_trim(s);
                match spec_resolve_modifier(t) {
                    Some(m) => spec_click_events(
                        Destination::Focused,
                        modifier_key_name(m),
                        None,
                    ),
                    None => match spec_resolve_key(t) {
                        Some(k) => spec_click_events(Destination::Focused, k, None),
                        None => spec_char_events(Destination::Focused, s),
                    },
                }
            },
        }
    }
}

/// Smart input: detects what one string means and plans the matching events
/// at the focused window. Empty input is a successful no-op; classification
/// itself cannot fail, so the result is always the plan.
pub fn type_auto(input: &str) -> (r: Result<Vec<KeyEvent>, KeyboardSenderError>)
    ensures
        r matches Ok(p) && p.deep_view() == spec_type_auto(input@),
{
    if input.is_empty() {
        let r: Vec<KeyEvent> = Vec::new();
        proof {
            assert(r.deep_view() =~= Seq::<EventSpec>::empty());
        }
        return Ok(r);
    }
    let v = str_chars(input);
    if contains_char(&v, '+') {
        return Ok(type_shortcut_auto(input));
    }
    if let Some(c) = detect_single_char(input) {
        return Ok(type_char_auto(c));
    }
    let t = trim_chars(&v);
    match resolve_modifier_chars(&t) {
        Some(m) => Ok(key_click(&modifier_to_key(m), None)),
        None => match resolve_key_chars(&t) {
            Some(k) => Ok(key_click(&k, None)),
            None => Ok(type_string(input)),
        },
    }
}

/// The events of the first `n` inputs of a batch, with a 20-millisecond wait
/// after each input but the last.
pub open spec fn spec_type_multiple_prefix(xs: Seq<Seq<char>>, n: int) -> Seq<EventSpec>
    decreases n,
{
    if n <= 0 {
        Seq::empty()
    } else {
        spec_type_multiple_prefix(xs, n - 1) + spec_type_auto(xs[n - 1]) + (if n < xs.len() {
            seq![EventSpec::Wait { duration: DurationValue::Millis(20) }]
        } else {
            Seq::empty()
        })
    }
}

/// What typing a batch of inputs yields: each input's plan in order, with a
/// 20-millisecond wait between consecutive inputs.
pub open spec fn spec_type_multiple(xs: Seq<Seq<char>>) -> Seq<EventSpec> {
    spec_type_multiple_prefix(xs, xs.len() as int)
}

/// Smart input of several strings in order, with a small delay between them.
pub fn type_multiple(inputs: &Vec<String>) -> (r: Result<Vec<KeyEvent>, KeyboardSenderError>)
    ensures
        r matches Ok(p) && p.deep_view() == spec_type_multiple(inputs.deep_view()),
{
    let mut r: Vec<KeyEvent> = Vec::new();
    let mut i: usize = 0;
    proof {
        assert(r.deep_view() =~= spec_type_multiple_prefix(inputs.deep_view(), 0));
    }
    while i < inputs.len()
        invariant
            i <= inputs@.len(),
            r.deep_view() == spec_type_multiple_prefix(inputs.deep_view(), i as int),
        decreases inputs@.len() - i,
    {
        let ghost prev = r.deep_view();
        let mut part = match type_auto(inputs[i].as_str()) {
            Ok(p) => p,
            Err(e) => {
                return Err(e);
            },
        };
        let ghost part_view = part.deep_view();
        r.append(&mut part);
        proof {
            assert(r.deep_view() =~= prev + part_view);
            assert(inputs.deep_view()[i as int] == inputs@[i as int]@);
        }
        if i + 1 < inputs.len() {
            let ghost before_wait = r.deep_view();
            r.push(KeyEvent::Wait { duration: DurationValue::Millis(20) });
            proof {
                assert(r.deep_view() =~= before_wait.push(
                    EventSpec::Wait { duration: DurationValue::Millis(20) },
                ));
                assert(r.deep_view() =~= spec_type_multiple_prefix(
                    inputs.deep_view(),
                    i + 1,
                ));
            }
        } else {
            proof {
                assert(r.deep_view() =~= spec_type_multiple_prefix(
                    inputs.deep_view(),
                    i + 1,
                ));
            }
        }
        i = i + 1;
    }
    Ok(r)
}

/// The events of typing the first `n` characters of a text with a wait of
/// `d` after every character.
pub open spec fn spec_type_with_delay_prefix(s: Seq<char>, n: int, d: DurationValue) -> Seq<
    EventSpec,
>
    decreases n,
{
    if n <= 0 {
        Seq::empty()
    } else {
        spec_type_with_delay_prefix(s, n - 1, d) + spec_type_char(s[n - 1]) + seq![
            EventSpec::Wait { duration: d },
        ]
    }
}

/// Smart input of a text, one character at a time, waiting the given time
/// after each character (the last one included).
pub fn type_with_delay(text: &str, delay: DurationValue) -> (r: Result<
    Vec<KeyEvent>,
    KeyboardSenderError,
>)
    ensures
        r matches Ok(p) && p.deep_view() == spec_type_with_delay_prefix(
            text@,
            text@.len() as int,
            delay,
        ),
{
    let n = text.unicode_len();
    let mut r: Vec<KeyEvent> = Vec::new();
    let mut i: usize = 0;
    proof {
        assert(r.deep_view() =~= spec_type_with_delay_prefix(text@, 0, delay));
    }
    while i < n
        invariant
            i <= n,
            n == text@.len(),
            r.deep_view() == spec_type_with_delay_prefix(text@, i as int, delay),
        decreases n - i,
    {
        let ghost prev = r.deep_view();
        let mut part = type_char_auto(text.get_char(i));
        let ghost part_view = part.deep_view();
        r.append(&mut part);
        let ghost before_wait = r.deep_view();
        r.push(KeyEvent::Wait { duration: delay });
        proof {
            assert(before_wait =~= prev + part_view);
            assert(r.deep_view() =~= before_wait.push(EventSpec::Wait { duration: delay }));
            assert(r.deep_view() =~= spec_type_with_delay_prefix(text@, i + 1, delay));
        }
        i = i + 1;
    }
    Ok(r)
}

} // verus!
