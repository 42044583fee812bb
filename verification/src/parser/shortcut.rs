//! Decomposition of `"mod+mod+...+key"` shortcut strings into an ordered
//! list of modifiers and exactly one main key.

use vstd::prelude::*;
use vstd::string::StringExecFns;

use crate::error::ErrorSpec;
use crate::error::KeyboardSenderError;
use crate::resolver::resolve_key_chars;
use crate::resolver::resolve_modifier_chars;
use crate::resolver::spec_resolve_key;
use crate::resolver::spec_resolve_modifier;
use crate::text::chars_to_string;
use crate::text::copy_range;
use crate::text::spec_trim;
use crate::text::str_chars;
use crate::text::trim_chars;
use crate::types::KeyId;
use crate::types::ModifierId;

verus! {

/// The first position at or after `i` that holds a `+` (or the end of the
/// sequence).
pub open spec fn plus_end(s: Seq<char>, i: int) -> int
    decreases s.len() - i,
{
    if i < s.len() && s[i] != '+' {
        plus_end(s, i + 1)
    } else {
        i
    }
}

/// `plus_end` stays within `[i, s.len()]`.
pub proof fn lemma_plus_end_bounds(s: Seq<char>, i: int)
    requires
        0 <= i <= s.len(),
    ensures
        i <= plus_end(s, i) <= s.len(),
    decreases s.len() - i,
{
    if i < s.len() && s[i] != '+' {
        lemma_plus_end_bounds(s, i + 1);
    }
}

/// The tokens of `s` from position `i` on, split at every `+`: empty tokens
/// included, exactly one more token than there are separators.
pub open spec fn split_plus_from(s: Seq<char>, i: int) -> Seq<Seq<char>>
    decreases s.len() - i,
    via split_plus_from_dec
{
    if i < 0 {
        Seq::empty()
    } else {
        let j = plus_end(s, i);
        if j >= s.len() {
            seq![s.subrange(i, s.len() as int)]
        } else {
            seq![s.subrange(i, j)] + split_plus_from(s, j + 1)
        }
    }
}

#[via_fn]
proof fn split_plus_from_dec(s: Seq<char>, i: int) {
    if 0 <= i <= s.len() {
        lemma_plus_end_bounds(s, i);
    }
}

/// Splits a character vector at every `+`.
pub(crate) fn split_plus(v: &Vec<char>) -> (r: Vec<Vec<char>>)
    ensures
        r.deep_view() == split_plus_from(v@, 0),
{
    let n = v.len();
    let mut r: Vec<Vec<char>> = Vec::new();
    let mut start: usize = 0;
    let mut i: usize = 0;
    proof {
        assert(r.deep_view() =~= Seq::<Seq<char>>::empty());
    }
    while i < n
        invariant
            start <= i <= n,
            n == v@.len(),
            plus_end(v@, start as int) == plus_end(v@, i as int),
            split_plus_from(v@, 0) == r.deep_view() + split_plus_from(v@, start as int),
        decreases n - i,
    {
        if v[i] == '+' {
            proof {
                assert(plus_end(v@, i as int) == i);
            }
            let ghost prev = r.deep_view();
            r.push(copy_range(v, start, i));
            proof {
                assert(r.deep_view() =~~= prev.push(v@.subrange(start as int, i as int)));
                assert(split_plus_from(v@, 0) =~= r.deep_view() + split_plus_from(
                    v@,
                    i + 1,
                ));
            }
            start = i + 1;
        }
        i = i + 1;
    }
    proof {
        assert(plus_end(v@, n as int) == n);
    }
    let ghost prev = r.deep_view();
    r.push(copy_range(v, start, n));
    proof {
        assert(r.deep_view() =~~= prev.push(v@.subrange(start as int, n as int)));
        assert(split_plus_from(v@, start as int) =~= seq![
            v@.subrange(start as int, n as int),
        ]);
        assert(r.deep_view() =~= split_plus_from(v@, 0));
    }
    r
}

/// The view of an optional resolved key.
pub open spec fn opt_key_view(k: Option<KeyId>) -> Option<Seq<char>> {
    match k {
        Some(key) => Some(key@),
        None => None,
    }
}

/// Walks the tokens of a shortcut: each trimmed token is tried first as a
/// modifier, then as a key; of several key tokens the last one wins. A token
/// that resolves as neither fails at once with that token as the message;
/// tokens exhausted without a main key fail with
/// `"No main key found in shortcut"`.
pub open spec fn spec_decompose_loop(
    toks: Seq<Seq<char>>,
    i: int,
    mods: Seq<ModifierId>,
    main: Option<Seq<char>>,
) -> Result<(Seq<ModifierId>, Seq<char>), Seq<char>>
    decreases toks.len() - i,
{
    if i < 0 || i >= toks.len() {
        match main {
            Some(k) => Ok((mods, k)),
            None => Err("No main key found in shortcut"@),
        }
    } else {
        let t = spec_trim(toks[i]);
        match spec_resolve_modifier(t) {
            Some(m) => spec_decompose_loop(toks, i + 1, mods.push(m), main),
            None => match spec_resolve_key(t) {
                Some(k) => spec_decompose_loop(toks, i + 1, mods, Some(k)),
                None => Err(t),
            },
        }
    }
}

/// What decomposing a shortcut string yields: the modifiers in written order
/// and the main key, or the message of the `ParseError`.
pub open spec fn spec_decompose(s: Seq<char>) -> Result<
    (Seq<ModifierId>, Seq<char>),
    Seq<char>,
> {
    spec_decompose_loop(split_plus_from(s, 0), 0, Seq::empty(), None)
}

/// Decomposes a shortcut string such as `"ctrl+shift+a"`.
///
/// The string is split at `+`; each token, trimmed, is tried first as a
/// modifier, then as a key (so a token valid as both counts as a modifier);
/// a second key token silently overwrites the first. A token that resolves
/// as neither fails with `ParseError` carrying the trimmed token; a string
/// without any key token — the empty string among them — fails with
/// `ParseError("No main key found in shortcut")`.
pub fn decompose_shortcut(shortcut_str: &str) -> (r: Result<
    (Vec<ModifierId>, KeyId),
    KeyboardSenderError,
>)
    ensures
        match spec_decompose(shortcut_str@) {
            Ok((ms, k)) => r matches Ok(p) && p.0@ == ms && p.1@ == k,
            Err(m) => r matches Err(e) && e@ == ErrorSpec::ParseError(m),
        },
{
    let v = str_chars(shortcut_str);
    let toks = split_plus(&v);
    let mut mods: Vec<ModifierId> = Vec::new();
    let mut main: Option<KeyId> = None;
    let mut i: usize = 0;
    proof {
        assert(mods@ =~= Seq::<ModifierId>::empty());
    }
    while i < toks.len()
        invariant
            i <= toks@.len(),
            toks.deep_view() == split_plus_from(shortcut_str@, 0),
            spec_decompose(shortcut_str@) == spec_decompose_loop(
                toks.deep_view(),
                i as int,
                mods@,
                opt_key_view(main),
            ),
        decreases toks@.len() - i,
    {
        proof {
            assert(toks.deep_view()[i as int] == toks@[i as int]@);
        }
        let t = trim_chars(&toks[i]);
        match resolve_modifier_chars(&t) {
            Some(m) => {
                mods.push(m);
            },
            None => {
                match resolve_key_chars(&t) {
                    Some(k) => {
                        main = Some(k);
                    },
                    None => {
                        return Err(KeyboardSenderError::ParseError(chars_to_string(&t)));
                    },
                }
            },
        }
        i = i + 1;
    }
    match main {
        Some(k) => Ok((mods, k)),
        None => Err(
            KeyboardSenderError::ParseError(String::from_str("No main key found in shortcut")),
        ),
    }
}

} // verus!
