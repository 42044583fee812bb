//! A verified command-interpretation and dispatch-planning layer for keyboard
//! automation.
//!
//! The library takes an ambiguous string — a structured `key:value,...`
//! command, a `"mod+mod+key"` shortcut, or a freeform token — and resolves it,
//! deterministically, into a concrete [`types::Action`], then compiles that
//! action into an ordered plan of primitive key events
//! ([`types::KeyEvent`]): press, release, character injection, and waits.
//! Delivering the planned events to the operating system is the embedder's
//! job; the plan fixes the ordering (press/release pairing, modifier
//! nesting) that delivery must follow.

use vstd::prelude::*;

pub mod convenience;
pub mod error;
pub mod parser;
pub mod planner;
pub mod resolver;
pub mod smart;
pub mod text;
pub mod types;

verus! {

/// Smart input: detects what one string means — text, single character,
/// named key, or shortcut — and plans the matching events at the focused
/// window.
pub fn type_auto(input: &str) -> (r: Result<
    Vec<types::KeyEvent>,
    error::KeyboardSenderError,
>)
    ensures
        r matches Ok(p) && p.deep_view() == smart::spec_type_auto(input@),
{
    smart::type_auto(input)
}

/// Smart input of several strings in order, with a small delay between them.
pub fn type_multiple(inputs: &Vec<String>) -> (r: Result<
    Vec<types::KeyEvent>,
    error::KeyboardSenderError,
>)
    ensures
        r matches Ok(p) && p.deep_view() == smart::spec_type_multiple(inputs.deep_view()),
{
    smart::type_multiple(inputs)
}

/// Smart input of a text, one character at a time, waiting the given time
/// after each character.
pub fn type_with_delay(text: &str, delay: types::DurationValue) -> (r: Result<
    Vec<types::KeyEvent>,
    error::KeyboardSenderError,
>)
    ensures
        r matches Ok(p) && p.deep_view() == smart::spec_type_with_delay_prefix(
            text@,
            text@.len() as int,
            delay,
        ),
{
    smart::type_with_delay(text, delay)
}

} // verus!
