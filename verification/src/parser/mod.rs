//! Parsing of command strings and their parameters.
//!
//! This module holds the numeric ground work shared by the duration and
//! window-handle grammars: digit strings and their values in base 10 and 16.

pub mod command;
pub mod duration;
pub mod shortcut;

use vstd::prelude::*;

verus! {

/// Whether `c` is a digit of the given base (decimal digits always; for base
/// 16 also the letters `a`-`f` and `A`-`F`).
pub open spec fn spec_is_digit(c: char, base: nat) -> bool {
    let u = c as int;
    (48 <= u && u <= 57 && u - 48 < base) || (base == 16 && 97 <= u && u <= 102) || (base == 16
        && 65 <= u && u <= 70)
}

/// The numeric value of a digit (meaningful only where `spec_is_digit` holds).
pub open spec fn spec_digit_num(c: char, base: nat) -> nat {
    let u = c as int;
    if 48 <= u && u <= 57 {
        (u - 48) as nat
    } else if 97 <= u && u <= 102 {
        (u - 87) as nat
    } else if 65 <= u && u <= 70 {
        (u - 55) as nat
    } else {
        0
    }
}

/// Whether every character of `s` is a digit of the given base.
pub open spec fn all_digits(s: Seq<char>, base: nat) -> bool {
    forall|i: int| 0 <= i < s.len() ==> spec_is_digit(#[trigger] s[i], base)
}

/// The value of a digit string read in the given base; the empty string has
/// value `0` (meaningful only where `all_digits` holds).
pub open spec fn spec_digits_num(s: Seq<char>, base: nat) -> nat
    decreases s.len(),
{
    if s.len() == 0 {
        0
    } else {
        spec_digits_num(s.drop_last(), base) * base + spec_digit_num(s.last(), base)
    }
}

/// A digit string's value never shrinks when more digits follow: the value of
/// a prefix is at most the value of the whole.
pub proof fn lemma_digits_num_prefix_le(s: Seq<char>, base: nat, n: int)
    requires
        0 <= n <= s.len(),
        base >= 1,
    ensures
        spec_digits_num(s.subrange(0, n), base) <= spec_digits_num(s, base),
    decreases s.len() - n,
{
    if n == s.len() {
        assert(s.subrange(0, n) =~= s);
    } else {
        lemma_digits_num_prefix_le(s.drop_last(), base, n);
        assert(s.drop_last().subrange(0, n) =~= s.subrange(0, n));
        let v = spec_digits_num(s.drop_last(), base);
        assert(v * base >= v * 1 == v) by (nonlinear_arith)
            requires
                base >= 1,
                v >= 0,
        ;
    }
}

/// Classifies one character as a digit of the given base.
fn digit_val(c: char, base: u64) -> (r: Option<u64>)
    requires
        base == 10 || base == 16,
    ensures
        match r {
            Some(d) => spec_is_digit(c, base as nat) && d == spec_digit_num(c, base as nat) && d
                < base,
            None => !spec_is_digit(c, base as nat),
        },
{
    let u = c as u32;
    if 48 <= u && u <= 57 {
        Some((u - 48) as u64)
    } else if base == 16 && 97 <= u && u <= 102 {
        Some((u - 87) as u64)
    } else if base == 16 && 65 <= u && u <= 70 {
        Some((u - 55) as u64)
    } else {
        None
    }
}

/// Tests whether every character of `v[from..to]` is a decimal digit.
pub(crate) fn all_dec_digits(v: &Vec<char>, from: usize, to: usize) -> (r: bool)
    requires
        from <= to <= v@.len(),
    ensures
        r == all_digits(v@.subrange(from as int, to as int), 10),
{
    let mut i: usize = from;
    while i < to
        invariant
            from <= i <= to <= v@.len(),
            forall|j: int| from <= j < i ==> spec_is_digit(#[trigger] v@[j], 10),
        decreases to - i,
    {
        if digit_val(v[i], 10).is_none() {
            assert(!spec_is_digit(v@.subrange(from as int, to as int)[i - from], 10));
            return false;
        }
        i = i + 1;
    }
    assert forall|j: int| 0 <= j < to - from implies spec_is_digit(
        #[trigger] v@.subrange(from as int, to as int)[j],
        10,
    ) by {
        assert(v@.subrange(from as int, to as int)[j] == v@[j + from]);
    }
    true
}

/// Reads the value of `v[from..to]` in the given base, refusing the range
/// where any character is no digit of the base or the value exceeds `limit`.
pub(crate) fn digits_num_bounded(v: &Vec<char>, from: usize, to: usize, base: u64, limit: u64) -> (r:
    Option<u64>)
    requires
        from <= to <= v@.len(),
        base == 10 || base == 16,
    ensures
        match r {
            Some(x) => all_digits(v@.subrange(from as int, to as int), base as nat)
                && spec_digits_num(v@.subrange(from as int, to as int), base as nat) == x && x
                <= limit,
            None => !all_digits(v@.subrange(from as int, to as int), base as nat)
                || spec_digits_num(v@.subrange(from as int, to as int), base as nat) > limit,
        },
{
    let ghost whole = v@.subrange(from as int, to as int);
    let mut acc: u64 = 0;
    let mut i: usize = from;
    while i < to
        invariant
            from <= i <= to <= v@.len(),
            base == 10 || base == 16,
            all_digits(v@.subrange(from as int, i as int), base as nat),
            spec_digits_num(v@.subrange(from as int, i as int), base as nat) == acc,
            acc <= limit,
            whole == v@.subrange(from as int, to as int),
        decreases to - i,
    {
        let ghost prefix = v@.subrange(from as int, i as int);
        let ghost next = v@.subrange(from as int, i + 1);
        proof {
            assert(next.drop_last() =~= prefix);
            assert(next.last() == v@[i as int]);
        }
        match digit_val(v[i], base) {
            None => {
                proof {
                    assert(whole[i - from] == v@[i as int]);
                    assert(!all_digits(whole, base as nat));
                }
                return None;
            },
            Some(d) => {
                proof {
                    assert(all_digits(next, base as nat)) by {
                        assert(forall|j: int|
                            0 <= j < next.len() - 1 ==> next[j] == #[trigger] prefix[j]);
                    }
                }
                if limit < d {
                    proof {
                        overflow_exceeds(v@, from as int, i as int, to as int, base as nat, limit);
                    }
                    return None;
                }
                let q = (limit - d) / base;
                if acc > q {
                    proof {
                        let m = (limit - d) as int;
                        vstd::arithmetic::div_mod::lemma_fundamental_div_mod(m, base as int);
                        assert(acc as int * base as int + d > limit) by (nonlinear_arith)
                            requires
                                acc as int >= m / (base as int) + 1,
                                m == (base as int) * (m / (base as int)) + m % (base as int),
                                0 <= m % (base as int) < base as int,
                                base as int >= 2,
                                d as int + m == limit as int,
                        ;
                        overflow_exceeds(v@, from as int, i as int, to as int, base as nat, limit);
                    }
                    return None;
                }
                proof {
                    let m = (limit - d) as int;
                    vstd::arithmetic::div_mod::lemma_fundamental_div_mod(m, base as int);
                    assert(acc as int * base as int + d <= limit) by (nonlinear_arith)
                        requires
                            acc as int <= m / (base as int),
                            m == (base as int) * (m / (base as int)) + m % (base as int),
                            0 <= m % (base as int) < base as int,
                            base as int >= 2,
                            d as int + m == limit as int,
                            acc >= 0,
                            d >= 0,
                    ;
                }
                acc = acc * base + d;
            },
        }
        i = i + 1;
    }
    proof {
        assert(v@.subrange(from as int, i as int) =~= whole);
    }
    Some(acc)
}

/// After the prefix `v[from..i]` a digit makes the value exceed `limit`: then
/// the whole range `v[from..to]` is no digit string within `limit` either.
proof fn overflow_exceeds(v: Seq<char>, from: int, i: int, to: int, base: nat, limit: u64)
    requires
        0 <= from <= i < to <= v.len(),
        base >= 1,
        spec_digits_num(v.subrange(from, i), base) * base + spec_digit_num(v[i], base) > limit,
        spec_is_digit(v[i], base),
    ensures
        !all_digits(v.subrange(from, to), base) || spec_digits_num(v.subrange(from, to), base)
            > limit,
{
    let whole = v.subrange(from, to);
    if all_digits(whole, base) {
        let next = v.subrange(from, i + 1);
        assert(next.drop_last() =~= v.subrange(from, i));
        assert(next.last() == v[i]);
        assert(whole.subrange(0, i + 1 - from) =~= next);
        lemma_digits_num_prefix_le(whole, base, i + 1 - from);
    }
}

} // verus!
