//! Window-handle strings and `key:value` command strings.

use vstd::prelude::*;
use vstd::string::StrSliceExecFns;
use vstd::string::StringExecFns;

use crate::error::ErrorSpec;
use crate::error::KeyboardSenderError;
use crate::parser::all_digits;
use crate::parser::digits_num_bounded;
use crate::parser::duration::parse_duration;
use crate::parser::duration::spec_parse_duration;
use crate::parser::shortcut::decompose_shortcut;
use crate::parser::shortcut::spec_decompose;
use crate::parser::spec_digits_num;
use crate::planner::dispatch::dispatch;
use crate::planner::dispatch::spec_dispatch;
use crate::planner::global::press_combination;
use crate::planner::spec_combination_events;
use crate::resolver::resolve_key;
use crate::resolver::spec_resolve_key;
use crate::text::str_eq_str;
use crate::types::Action;
use crate::types::ActionSpec;
use crate::types::Destination;
use crate::types::DurationValue;
use crate::types::EventSpec;
use crate::types::KeyEvent;
use crate::text::chars_eq_str;
use crate::text::chars_to_string;
use crate::text::copy_range;
use crate::text::is_word;
use crate::text::is_word_char;
use crate::text::str_chars;
use crate::types::WindowHandle;

verus! {

/// What a window-handle string denotes: the empty string denotes `0`; a
/// `0x`-prefixed string is read as hexadecimal, anything else as decimal,
/// either with an optional leading sign; `None` where no digits follow the
/// prefix and sign, a character is no digit of the base, or the value does
/// not fit the handle type.
pub open spec fn spec_parse_hwnd(s: Seq<char>) -> Option<int> {
    if s.len() == 0 {
        Some(0)
    } else {
        let hex = s.len() >= 2 && s[0] == '0' && s[1] == 'x';
        let body = if hex {
            s.skip(2)
        } else {
            s
        };
        let signed = body.len() >= 1 && (body[0] == '-' || body[0] == '+');
        let neg = body.len() >= 1 && body[0] == '-';
        let digs = if signed {
            body.skip(1)
        } else {
            body
        };
        let base: nat = if hex {
            16
        } else {
            10
        };
        if digs.len() >= 1 && all_digits(digs, base) {
            let v = spec_digits_num(digs, base) as int;
            if neg {
                if -v >= isize::MIN {
                    Some(-v)
                } else {
                    None
                }
            } else {
                if v <= isize::MAX {
                    Some(v)
                } else {
                    None
                }
            }
        } else {
            None
        }
    }
}

/// Parses a window-handle string: empty means `0`, `0x`-prefixed strings are
/// hexadecimal, everything else decimal. A malformed or out-of-range string
/// fails with `InvalidWindowHandle` carrying the input.
pub fn parse_hwnd(hwnd_str: &str) -> (r: Result<WindowHandle, KeyboardSenderError>)
    ensures
        match spec_parse_hwnd(hwnd_str@) {
            Some(h) => r matches Ok(w) && w as int == h,
            None => r matches Err(e) && e@ == ErrorSpec::InvalidWindowHandle(hwnd_str@),
        },
{
    let v = str_chars(hwnd_str);
    let n = v.len();
    if n == 0 {
        return Ok(0);
    }
    let hex = n >= 2 && v[0] == '0' && v[1] == 'x';
    let body_start: usize = if hex {
        2
    } else {
        0
    };
    let signed = body_start < n && (v[body_start] == '-' || v[body_start] == '+');
    let neg = body_start < n && v[body_start] == '-';
    let start = if signed {
        body_start + 1
    } else {
        body_start
    };
    let base: u64 = if hex {
        16
    } else {
        10
    };
    proof {
        let body = if hex {
            hwnd_str@.skip(2)
        } else {
            hwnd_str@
        };
        let digs = if signed {
            body.skip(1)
        } else {
            body
        };
        assert(digs =~= hwnd_str@.subrange(start as int, n as int));
    }
    if start >= n {
        return Err(KeyboardSenderError::InvalidWindowHandle(String::from_str(hwnd_str)));
    }
    let max_mag: u64 = (isize::MAX as u64) + 1;
    let limit: u64 = if neg {
        max_mag
    } else {
        isize::MAX as u64
    };
    match digits_num_bounded(&v, start, n, base, limit) {
        Some(x) => {
            if neg {
                if x > isize::MAX as u64 {
                    Ok(isize::MIN)
                } else {
                    Ok(-(x as isize))
                }
            } else {
                Ok(x as isize)
            }
        },
        None => Err(KeyboardSenderError::InvalidWindowHandle(String::from_str(hwnd_str))),
    }
}

/// The first position at or after `i` that holds no word character (or the
/// end of the sequence).
pub open spec fn word_end(s: Seq<char>, i: int) -> int
    decreases s.len() - i,
{
    if i < s.len() && is_word_char(s[i]) {
        word_end(s, i + 1)
    } else {
        i
    }
}

/// The first position at or after `i` that holds a comma (or the end of the
/// sequence).
pub open spec fn value_end(s: Seq<char>, i: int) -> int
    decreases s.len() - i,
{
    if i < s.len() && s[i] != ',' {
        value_end(s, i + 1)
    } else {
        i
    }
}

/// `word_end` stays within `[i, s.len()]`.
pub proof fn lemma_word_end_bounds(s: Seq<char>, i: int)
    requires
        0 <= i <= s.len(),
    ensures
        i <= word_end(s, i) <= s.len(),
    decreases s.len() - i,
{
    if i < s.len() && is_word_char(s[i]) {
        lemma_word_end_bounds(s, i + 1);
    }
}

/// `value_end` stays within `[i, s.len()]`.
pub proof fn lemma_value_end_bounds(s: Seq<char>, i: int)
    requires
        0 <= i <= s.len(),
    ensures
        i <= value_end(s, i) <= s.len(),
    decreases s.len() - i,
{
    if i < s.len() && s[i] != ',' {
        lemma_value_end_bounds(s, i + 1);
    }
}

/// The value of the first field with the given name, or `None` where no
/// field carries it.
pub open spec fn spec_lookup(ps: Seq<(Seq<char>, Seq<char>)>, k: Seq<char>) -> Option<Seq<char>>
    decreases ps.len(),
{
    if ps.len() == 0 {
        None
    } else if ps[0].0 == k {
        Some(ps[0].1)
    } else {
        spec_lookup(ps.drop_first(), k)
    }
}

/// A name is found exactly when some field carries it.
pub proof fn lemma_lookup_none_iff(ps: Seq<(Seq<char>, Seq<char>)>, k: Seq<char>)
    ensures
        (spec_lookup(ps, k) is None) <==> (forall|i: int|
            0 <= i < ps.len() ==> (#[trigger] ps[i]).0 != k),
    decreases ps.len(),
{
    if ps.len() > 0 {
        lemma_lookup_none_iff(ps.drop_first(), k);
        assert(forall|i: int| 1 <= i < ps.len() ==> (#[trigger] ps[i]) == ps.drop_first()[i - 1]);
    }
}

/// Where the first field with name `k` stands at index `m`, the lookup
/// yields that field's value.
pub proof fn lemma_lookup_found(ps: Seq<(Seq<char>, Seq<char>)>, k: Seq<char>, m: int)
    requires
        0 <= m < ps.len(),
        ps[m].0 == k,
        forall|i: int| 0 <= i < m ==> (#[trigger] ps[i]).0 != k,
    ensures
        spec_lookup(ps, k) == Some(ps[m].1),
    decreases m,
{
    if m > 0 {
        lemma_lookup_found(ps.drop_first(), k, m - 1);
        assert(forall|i: int|
            0 <= i < ps.drop_first().len() ==> #[trigger] ps.drop_first()[i] == ps[i + 1]);
    }
}

/// The scan that recognizes every `word:value` occurrence of a command
/// string, left to right: at a word character, the maximal word run must be
/// followed by a colon and at least one non-comma character; the value then
/// runs to the next comma or the end. A field whose name was already
/// collected is dropped (first occurrence wins); everything that matches no
/// field is skipped silently.
pub open spec fn spec_extract_loop(
    s: Seq<char>,
    i: int,
    acc: Seq<(Seq<char>, Seq<char>)>,
) -> Seq<(Seq<char>, Seq<char>)>
    decreases s.len() - i,
    via spec_extract_loop_dec
{
    if i < 0 || i >= s.len() {
        acc
    } else if !is_word_char(s[i]) {
        spec_extract_loop(s, i + 1, acc)
    } else {
        let j = word_end(s, i);
        if j < s.len() && s[j] == ':' && j + 1 < s.len() && s[j + 1] != ',' {
            let k = value_end(s, j + 1);
            let key = s.subrange(i, j);
            let val = s.subrange(j + 1, k);
            if spec_lookup(acc, key) is Some {
                spec_extract_loop(s, k, acc)
            } else {
                spec_extract_loop(s, k, acc.push((key, val)))
            }
        } else if j < s.len() {
            spec_extract_loop(s, j + 1, acc)
        } else {
            acc
        }
    }
}

#[via_fn]
proof fn spec_extract_loop_dec(s: Seq<char>, i: int, acc: Seq<(Seq<char>, Seq<char>)>) {
    if 0 <= i < s.len() && is_word_char(s[i]) {
        lemma_word_end_bounds(s, i);
        let j = word_end(s, i);
        if j < s.len() && s[j] == ':' && j + 1 < s.len() && s[j + 1] != ',' {
            lemma_value_end_bounds(s, j + 1);
        }
    }
}

/// The fields that the extractor recognizes in a command string, in order of
/// first occurrence, each name kept once with its first value.
pub open spec fn spec_extract(s: Seq<char>) -> Seq<(Seq<char>, Seq<char>)> {
    spec_extract_loop(s, 0, Seq::empty())
}

/// The view of one collected field.
pub(crate) open spec fn pair_view(p: (String, String)) -> (Seq<char>, Seq<char>) {
    (p.0@, p.1@)
}

/// The view of a list of collected fields.
pub(crate) open spec fn fields_view(fs: Seq<(String, String)>) -> Seq<(Seq<char>, Seq<char>)> {
    fs.map_values(|p: (String, String)| pair_view(p))
}

/// The parameter mapping extracted from one command string: field names to
/// field values, in order of first occurrence, each name held once.
pub struct ParsedCommand {
    fields: Vec<(String, String)>,
}

impl View for ParsedCommand {
    type V = Seq<(Seq<char>, Seq<char>)>;

    closed spec fn view(&self) -> Seq<(Seq<char>, Seq<char>)> {
        fields_view(self.fields@)
    }
}

impl ParsedCommand {
    /// Well-formedness: no field name occurs twice, and no value is empty.
    pub open spec fn wf(&self) -> bool {
        &&& forall|i: int, j: int|
            0 <= i < j < self@.len() ==> (#[trigger] self@[i]).0 != (#[trigger] self@[j]).0
        &&& forall|i: int| 0 <= i < self@.len() ==> (#[trigger] self@[i]).1.len() >= 1
    }

    /// How many fields were collected.
    pub fn n_fields(&self) -> (r: usize)
        ensures
            r == self@.len(),
    {
        self.fields.len()
    }

    /// The value of the field `name`, or `None` where the command did not
    /// carry that field.
    pub fn get(&self, name: &str) -> (r: Option<&String>)
        ensures
            match r {
                Some(v) => spec_lookup(self@, name@) == Some(v@),
                None => spec_lookup(self@, name@) is None,
            },
    {
        let key = str_chars(name);
        let mut m: usize = 0;
        while m < self.fields.len()
            invariant
                m <= self.fields@.len(),
                key@ == name@,
                forall|i: int| 0 <= i < m ==> (#[trigger] self@[i]).0 != name@,
            decreases self.fields@.len() - m,
        {
            if chars_eq_str(&key, self.fields[m].0.as_str()) {
                proof {
                    lemma_lookup_found(self@, name@, m as int);
                }
                return Some(&self.fields[m].1);
            }
            m = m + 1;
        }
        proof {
            lemma_lookup_none_iff(self@, name@);
        }
        None
    }
}

/// Tests whether a name is already among the collected fields.
fn has_key(fields: &Vec<(String, String)>, key: &Vec<char>) -> (r: bool)
    ensures
        r == (spec_lookup(fields_view(fields@), key@) is Some),
{
    let mut m: usize = 0;
    while m < fields.len()
        invariant
            m <= fields@.len(),
            forall|i: int| 0 <= i < m ==> (#[trigger] fields_view(fields@)[i]).0 != key@,
        decreases fields@.len() - m,
    {
        if chars_eq_str(key, fields[m].0.as_str()) {
            proof {
                lemma_lookup_found(fields_view(fields@), key@, m as int);
            }
            return true;
        }
        m = m + 1;
    }
    proof {
        lemma_lookup_none_iff(fields_view(fields@), key@);
    }
    false
}

/// Extracts the `word:value` fields of a command string.
///
/// A field name is one or more word characters, its value everything up to
/// the next comma or the end; text that matches no field is ignored, and of
/// two fields with one name only the first is kept. Extraction never fails:
/// a string without fields yields an empty mapping.
pub fn parse_command_params(command: &str) -> (r: ParsedCommand)
    ensures
        r@ == spec_extract(command@),
        r.wf(),
{
    let v = str_chars(command);
    let n = v.len();
    let mut fields: Vec<(String, String)> = Vec::new();
    proof {
        assert(fields_view(fields@) =~= Seq::<(Seq<char>, Seq<char>)>::empty());
    }
    let mut i: usize = 0;
    while i < n
        invariant
            i <= n,
            n == v@.len(),
            v@ == command@,
            spec_extract(command@) == spec_extract_loop(v@, i as int, fields_view(fields@)),
            forall|a: int, b: int|
                0 <= a < b < fields_view(fields@).len() ==> (#[trigger] fields_view(fields@)[a]).0
                    != (#[trigger] fields_view(fields@)[b]).0,
            forall|a: int|
                0 <= a < fields_view(fields@).len() ==> (#[trigger] fields_view(
                    fields@,
                )[a]).1.len() >= 1,
        decreases n - i,
    {
        if !is_word(v[i]) {
            i = i + 1;
        } else {
            let mut j = i + 1;
            while j < n && is_word(v[j])
                invariant
                    i < j <= n,
                    n == v@.len(),
                    word_end(v@, i as int) == word_end(v@, j as int),
                decreases n - j,
            {
                j = j + 1;
            }
            proof {
                assert(word_end(v@, j as int) == j);
            }
            if j < n && v[j] == ':' && j + 1 < n && v[j + 1] != ',' {
                proof {
                    assert(value_end(v@, (j + 1) as int) == value_end(v@, (j + 2) as int));
                }
                let mut k = j + 2;
                while k < n && v[k] != ','
                    invariant
                        j + 2 <= k <= n,
                        n == v@.len(),
                        value_end(v@, (j + 1) as int) == value_end(v@, k as int),
                    decreases n - k,
                {
                    k = k + 1;
                }
                proof {
                    assert(value_end(v@, k as int) == k);
                }
                let key = copy_range(&v, i, j);
                if !has_key(&fields, &key) {
                    let val = copy_range(&v, j + 1, k);
                    let ghost old_fields = fields@;
                    fields.push((chars_to_string(&key), chars_to_string(&val)));
                    proof {
                        assert(fields_view(fields@) =~= fields_view(old_fields).push(
                            (key@, val@),
                        ));
                        lemma_lookup_none_iff(fields_view(old_fields), key@);
                    }
                }
                i = k;
            } else if j < n {
                i = j + 1;
            } else {
                i = n;
            }
        }
    }
    proof {
        assert(spec_extract_loop(v@, i as int, fields_view(fields@)) == fields_view(fields@));
    }
    ParsedCommand { fields }
}

/// A looked-up field is one of the mapping's entries.
pub proof fn lemma_lookup_some_index(ps: Seq<(Seq<char>, Seq<char>)>, k: Seq<char>)
    requires
        spec_lookup(ps, k) is Some,
    ensures
        exists|i: int|
            0 <= i < ps.len() && (#[trigger] ps[i]).0 == k && ps[i].1 == spec_lookup(
                ps,
                k,
            )->Some_0,
    decreases ps.len(),
{
    if ps.len() > 0 && ps[0].0 != k {
        lemma_lookup_some_index(ps.drop_first(), k);
        let i = choose|i: int|
            0 <= i < ps.drop_first().len() && (#[trigger] ps.drop_first()[i]).0 == k
                && ps.drop_first()[i].1 == spec_lookup(ps.drop_first(), k)->Some_0;
        assert(ps[i + 1] == ps.drop_first()[i]);
    }
}

/// The field `action`, or in its absence the field `type`.
pub open spec fn spec_action_field(m: Seq<(Seq<char>, Seq<char>)>) -> Option<Seq<char>> {
    match spec_lookup(m, "action"@) {
        Some(a) => Some(a),
        None => spec_lookup(m, "type"@),
    }
}

/// The duration attached to a command: the parsed `duration` field, an
/// absent field meaning none. A present field that the Duration Lexer
/// rejects fails the whole command: the lexer's message passes through and
/// surfaces as `InvalidDuration`.
pub open spec fn spec_duration_field(m: Seq<(Seq<char>, Seq<char>)>) -> Result<
    Option<DurationValue>,
    Seq<char>,
> {
    match spec_lookup(m, "duration"@) {
        Some(ds) => match spec_parse_duration(ds) {
            Ok(d) => Ok(Some(d)),
            Err(msg) => Err(msg),
        },
        None => Ok(None),
    }
}

/// The destination that a window handle selects: `0` means the focused
/// window.
pub open spec fn spec_dest_of(h: int) -> Destination {
    if h == 0 {
        Destination::Focused
    } else {
        Destination::Window(h as isize)
    }
}

/// The key that a key-naming field resolves to, or the error of the command:
/// `CommandParseError` naming the missing field where no `key` field stands,
/// `UnsupportedKey` where its value resolves to nothing.
pub open spec fn spec_key_field(m: Seq<(Seq<char>, Seq<char>)>) -> Result<Seq<char>, ErrorSpec> {
    match spec_lookup(m, "key"@) {
        Some(ks) => match spec_resolve_key(ks) {
            Some(k) => Ok(k),
            None => Err(ErrorSpec::UnsupportedKey(ks)),
        },
        None => Err(ErrorSpec::CommandParseError("Missing field: key"@)),
    }
}

/// The decision order of the action resolver, after the window handle `h`
/// and the duration `dur` have been read: a `shortcut` field wins outright
/// (and is always delivered to the focused window); else an explicit
/// `action`/`type` verb is dispatched on; else the first of `key`, `char`,
/// `text` decides; a command with none of these is refused.
pub open spec fn spec_resolve_with(
    m: Seq<(Seq<char>, Seq<char>)>,
    h: int,
    dur: Option<DurationValue>,
) -> Result<(ActionSpec, Destination), ErrorSpec> {
    let dest = spec_dest_of(h);
    match spec_lookup(m, "shortcut"@) {
        Some(sc) => match spec_decompose(sc) {
            Ok((ms, k)) => Ok((ActionSpec::Shortcut(ms, k, dur), Destination::Focused)),
            Err(msg) => Err(ErrorSpec::ParseError(msg)),
        },
        None => match spec_action_field(m) {
            Some(av) => {
                if av == "key_down"@ || av == "keydown"@ {
                    match spec_key_field(m) {
                        Ok(k) => Ok((ActionSpec::KeyDown(k), dest)),
                        Err(e) => Err(e),
                    }
                } else if av == "key_up"@ || av == "keyup"@ {
                    match spec_key_field(m) {
                        Ok(k) => Ok((ActionSpec::KeyUp(k), dest)),
                        Err(e) => Err(e),
                    }
                } else if av == "key_click"@ || av == "keyclick"@ {
                    match spec_key_field(m) {
                        Ok(k) => Ok((ActionSpec::KeyClick(k, dur), dest)),
                        Err(e) => Err(e),
                    }
                } else if av == "char"@ {
                    match spec_lookup(m, "char"@) {
                        Some(cs) => {
                            if cs.len() >= 1 {
                                Ok((ActionSpec::CharInput(cs[0]), dest))
                            } else {
                                Err(ErrorSpec::CommandParseError("Missing field: char"@))
                            }
                        },
                        None => Err(ErrorSpec::CommandParseError("Missing field: char"@)),
                    }
                } else if av == "text"@ {
                    match spec_lookup(m, "text"@) {
                        Some(ts) => Ok((ActionSpec::TextInput(ts), dest)),
                        None => Err(ErrorSpec::CommandParseError("Missing field: text"@)),
                    }
                } else {
                    Err(ErrorSpec::CommandParseError("Unknown action: "@ + av))
                }
            },
            None => {
                if spec_lookup(m, "key"@) is Some {
                    match spec_key_field(m) {
                        Ok(k) => Ok((ActionSpec::KeyClick(k, dur), dest)),
                        Err(e) => Err(e),
                    }
                } else {
                    match spec_lookup(m, "char"@) {
                        Some(cs) => {
                            if cs.len() >= 1 {
                                Ok((ActionSpec::CharInput(cs[0]), dest))
                            } else {
                                Err(ErrorSpec::CommandParseError("Missing field: char"@))
                            }
                        },
                        None => match spec_lookup(m, "text"@) {
                            Some(ts) => Ok((ActionSpec::TextInput(ts), dest)),
                            None => Err(ErrorSpec::CommandParseError("No valid command found"@)),
                        },
                    }
                }
            },
        },
    }
}

/// What resolving a parameter mapping yields: the window handle is read
/// first (the `hwnd` field, absent meaning `0`) and its error propagates;
/// then the `duration` field is read and its error propagates too; then
/// `spec_resolve_with` decides the action and the destination.
pub open spec fn spec_resolve_params(m: Seq<(Seq<char>, Seq<char>)>) -> Result<
    (ActionSpec, Destination),
    ErrorSpec,
> {
    match spec_lookup(m, "hwnd"@) {
        Some(hs) => match spec_parse_hwnd(hs) {
            Some(h) => match spec_duration_field(m) {
                Ok(dur) => spec_resolve_with(m, h, dur),
                Err(msg) => Err(ErrorSpec::InvalidDuration(msg)),
            },
            None => Err(ErrorSpec::InvalidWindowHandle(hs)),
        },
        None => match spec_duration_field(m) {
            Ok(dur) => spec_resolve_with(m, 0, dur),
            Err(msg) => Err(ErrorSpec::InvalidDuration(msg)),
        },
    }
}

/// Resolves an extracted parameter mapping into the action the caller means
/// and the destination it goes to.
///
/// Precedence: a `shortcut` field wins and goes to the focused window; else
/// an `action` (or `type`) verb decides and must find its required field;
/// else the first present of `key`, `char`, `text` decides. The `hwnd` field
/// (default `"0"`) selects the destination. A present `duration` field that
/// the Duration Lexer rejects fails the command with `InvalidDuration`; a
/// well-formed one is attached only to clicks and shortcuts.
pub fn resolve_params(params: &ParsedCommand) -> (r: Result<
    (Action, Destination),
    KeyboardSenderError,
>)
    requires
        params.wf(),
    ensures
        match spec_resolve_params(params@) {
            Ok((a, d)) => r matches Ok(p) && p.0@ == a && p.1 == d,
            Err(e) => r matches Err(err) && err@ == e,
        },
{
    let hwnd: WindowHandle = match params.get("hwnd") {
        Some(hs) => {
            match parse_hwnd(hs.as_str()) {
                Ok(h) => h,
                Err(e) => {
                    return Err(e);
                },
            }
        },
        None => 0,
    };
    let dur: Option<DurationValue> = match params.get("duration") {
        Some(ds) => {
            match parse_duration(ds.as_str()) {
                Ok(d) => Some(d),
                Err(e) => {
                    return Err(e);
                },
            }
        },
        None => None,
    };
    let dest: Destination = if hwnd == 0 {
        Destination::Focused
    } else {
        Destination::Window(hwnd)
    };
    if let Some(sc) = params.get("shortcut") {
        return match decompose_shortcut(sc.as_str()) {
            Ok((ms, k)) => Ok((Action::Shortcut(ms, k, dur), Destination::Focused)),
            Err(e) => Err(e),
        };
    }
    let action_field: Option<&String> = match params.get("action") {
        Some(a) => Some(a),
        None => params.get("type"),
    };
    match action_field {
        Some(av) => {
            if str_eq_str(av.as_str(), "key_down") || str_eq_str(av.as_str(), "keydown") {
                match key_field(params) {
                    Ok(k) => Ok((Action::KeyDown(k), dest)),
                    Err(e) => Err(e),
                }
            } else if str_eq_str(av.as_str(), "key_up") || str_eq_str(av.as_str(), "keyup") {
                match key_field(params) {
                    Ok(k) => Ok((Action::KeyUp(k), dest)),
                    Err(e) => Err(e),
                }
            } else if str_eq_str(av.as_str(), "key_click") || str_eq_str(av.as_str(), "keyclick") {
                match key_field(params) {
                    Ok(k) => Ok((Action::KeyClick(k, dur), dest)),
                    Err(e) => Err(e),
                }
            } else if str_eq_str(av.as_str(), "char") {
                char_field(params, dest)
            } else if str_eq_str(av.as_str(), "text") {
                match params.get("text") {
                    Some(ts) => Ok((Action::TextInput(ts.clone()), dest)),
                    None => Err(
                        KeyboardSenderError::CommandParseError(
                            String::from_str("Missing field: text"),
                        ),
                    ),
                }
            } else {
                let mut msg = String::from_str("Unknown action: ");
                msg.append(av.as_str());
                Err(KeyboardSenderError::CommandParseError(msg))
            }
        },
        None => {
            if params.get("key").is_some() {
                match key_field(params) {
                    Ok(k) => Ok((Action::KeyClick(k, dur), dest)),
                    Err(e) => Err(e),
                }
            } else if params.get("char").is_some() {
                char_field(params, dest)
            } else {
                match params.get("text") {
                    Some(ts) => Ok((Action::TextInput(ts.clone()), dest)),
                    None => Err(
                        KeyboardSenderError::CommandParseError(
                            String::from_str("No valid command found"),
                        ),
                    ),
                }
            }
        },
    }
}

/// Reads and resolves the `key` field of a command.
fn key_field(params: &ParsedCommand) -> (r: Result<crate::types::KeyId, KeyboardSenderError>)
    ensures
        match spec_key_field(params@) {
            Ok(k) => r matches Ok(kid) && kid@ == k,
            Err(e) => r matches Err(err) && err@ == e,
        },
{
    match params.get("key") {
        Some(ks) => resolve_key(ks.as_str()),
        None => Err(KeyboardSenderError::CommandParseError(String::from_str("Missing field: key"))),
    }
}

/// Reads the `char` field of a command and takes its first character.
fn char_field(params: &ParsedCommand, dest: Destination) -> (r: Result<
    (Action, Destination),
    KeyboardSenderError,
>)
    requires
        params.wf(),
    ensures
        match spec_lookup(params@, "char"@) {
            Some(cs) => {
                if cs.len() >= 1 {
                    r matches Ok(p) && p.0@ == ActionSpec::CharInput(cs[0]) && p.1 == dest
                } else {
                    r matches Err(err) && err@ == ErrorSpec::CommandParseError(
                        "Missing field: char"@,
                    )
                }
            },
            None => r matches Err(err) && err@ == ErrorSpec::CommandParseError(
                "Missing field: char"@,
            ),
        },
{
    match params.get("char") {
        Some(cs) => {
            proof {
                lemma_lookup_some_index(params@, "char"@);
            }
            let c = cs.as_str().get_char(0);
            Ok((Action::CharInput(c), dest))
        },
        None => Err(
            KeyboardSenderError::CommandParseError(String::from_str("Missing field: char")),
        ),
    }
}

/// What sending a shortcut string yields: the events of the decomposed
/// combination at the focused window, with no hold; or the decomposition
/// error's message.
pub open spec fn spec_shortcut(s: Seq<char>) -> Result<Seq<EventSpec>, Seq<char>> {
    match spec_decompose(s) {
        Ok((ms, k)) => Ok(
            spec_combination_events(Destination::Focused, ms, k, None),
        ),
        Err(m) => Err(m),
    }
}

/// Plans the delivery of one shortcut string, such as `"ctrl+c"`, at the
/// focused window: the decomposed modifiers are pressed in order around one
/// click of the main key, with no hold.
pub fn shortcut(shortcut_str: &str) -> (r: Result<Vec<KeyEvent>, KeyboardSenderError>)
    ensures
        match spec_shortcut(shortcut_str@) {
            Ok(evs) => r matches Ok(p) && p.deep_view() == evs,
            Err(m) => r matches Err(e) && e@ == ErrorSpec::ParseError(m),
        },
{
    match decompose_shortcut(shortcut_str) {
        Ok((mods, key)) => Ok(press_combination(&mods, &key, None)),
        Err(e) => Err(e),
    }
}

/// What executing a whole command string yields: the fields are extracted,
/// resolved into an action and a destination, and the action is compiled
/// into its event plan; every resolution error passes through verbatim.
pub open spec fn spec_send(s: Seq<char>) -> Result<Seq<EventSpec>, ErrorSpec> {
    match spec_resolve_params(spec_extract(s)) {
        Ok((a, d)) => Ok(spec_dispatch(a, d)),
        Err(e) => Err(e),
    }
}

/// Determinism law: executing a command is a pure function of the command
/// string. `send`'s contract pins its whole result to `spec_send` of the
/// input's characters, so two runs over equal strings yield equal plans and
/// equal errors — nothing about the run (time, environment, iteration order)
/// enters the outcome.
pub proof fn lemma_send_deterministic(s1: Seq<char>, s2: Seq<char>)
    requires
        s1 == s2,
    ensures
        spec_send(s1) == spec_send(s2),
{
}

/// Executes a textual command such as `"key:a,hwnd:0x1A2B,duration:50ms"`:
/// extracts its fields, resolves them into one action and a destination, and
/// plans the events to perform.
pub fn send(command: &str) -> (r: Result<Vec<KeyEvent>, KeyboardSenderError>)
    ensures
        match spec_send(command@) {
            Ok(evs) => r matches Ok(p) && p.deep_view() == evs,
            Err(e) => r matches Err(err) && err@ == e,
        },
{
    let params = parse_command_params(command);
    match resolve_params(&params) {
        Ok((action, dest)) => Ok(dispatch(&action, dest)),
        Err(e) => Err(e),
    }
}

} // verus!
