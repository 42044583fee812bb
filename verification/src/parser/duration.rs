//! The duration lexer: strings of the shape `<digits>("ms"|"s")`.

use vstd::prelude::*;
use vstd::string::StringExecFns;

use crate::error::ErrorSpec;
use crate::error::KeyboardSenderError;
use crate::parser::all_dec_digits;
use crate::parser::all_digits;
use crate::parser::digits_num_bounded;
use crate::parser::spec_digits_num;
use crate::text::chars_to_string;
use crate::text::str_chars;
use crate::types::DurationValue;

verus! {

/// Splits a well-formed duration string into its digits and its unit (`true`
/// for milliseconds); `None` where the string does not match
/// `<digits>("ms"|"s")` anchored, with at least one digit.
pub open spec fn spec_duration_split(s: Seq<char>) -> Option<(Seq<char>, bool)> {
    if s.len() >= 3 && s[s.len() - 2] == 'm' && s[s.len() - 1] == 's' && all_digits(
        s.subrange(0, s.len() - 2),
        10,
    ) {
        Some((s.subrange(0, s.len() - 2), true))
    } else if s.len() >= 2 && s[s.len() - 1] == 's' && all_digits(s.subrange(0, s.len() - 1), 10) {
        Some((s.subrange(0, s.len() - 1), false))
    } else {
        None
    }
}

/// What parsing a duration string yields: the written count of milliseconds
/// or seconds, exactly; or the message of the `InvalidDuration` error — the
/// string itself where it does not match the grammar, and a note naming the
/// digits where their value does not fit an unsigned 64-bit count.
pub open spec fn spec_parse_duration(s: Seq<char>) -> Result<DurationValue, Seq<char>> {
    match spec_duration_split(s) {
        Some((digits, millis)) => {
            if spec_digits_num(digits, 10) <= u64::MAX {
                if millis {
                    Ok(DurationValue::Millis(spec_digits_num(digits, 10) as u64))
                } else {
                    Ok(DurationValue::Secs(spec_digits_num(digits, 10) as u64))
                }
            } else {
                Err("Invalid number: "@ + digits)
            }
        },
        None => Err(s),
    }
}

/// Parses a duration string such as `"20ms"` or `"1s"`.
///
/// Exactly the strings matching `<digits>("ms"|"s")` — anchored, at least one
/// digit, no sign, no surrounding whitespace — whose count fits an unsigned
/// 64-bit value are accepted, and the count round-trips exactly. Everything
/// else fails with `InvalidDuration`.
pub fn parse_duration(duration_str: &str) -> (r: Result<DurationValue, KeyboardSenderError>)
    ensures
        match spec_parse_duration(duration_str@) {
            Ok(d) => r matches Ok(rd) && rd == d,
            Err(m) => r matches Err(e) && e@ == ErrorSpec::InvalidDuration(m),
        },
{
    let v = str_chars(duration_str);
    let n = v.len();
    let (end, millis): (usize, bool) = if n >= 3 && v[n - 2] == 'm' && v[n - 1] == 's'
        && all_dec_digits(&v, 0, n - 2) {
        (n - 2, true)
    } else if n >= 2 && v[n - 1] == 's' && all_dec_digits(&v, 0, n - 1) {
        (n - 1, false)
    } else {
        return Err(KeyboardSenderError::InvalidDuration(String::from_str(duration_str)));
    };
    match digits_num_bounded(&v, 0, end, 10, u64::MAX) {
        Some(x) => {
            if millis {
                Ok(DurationValue::Millis(x))
            } else {
                Ok(DurationValue::Secs(x))
            }
        },
        None => {
            let mut digits: Vec<char> = Vec::new();
            let mut i: usize = 0;
            while i < end
                invariant
                    i <= end <= v@.len(),
                    digits@ == v@.subrange(0, i as int),
                decreases end - i,
            {
                digits.push(v[i]);
                proof {
                    assert(digits@ =~= v@.subrange(0, i + 1));
                }
                i = i + 1;
            }
            let mut msg = String::from_str("Invalid number: ");
            let tail = chars_to_string(&digits);
            msg.append(tail.as_str());
            Err(KeyboardSenderError::InvalidDuration(msg))
        },
    }
}

} // verus!
