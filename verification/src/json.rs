//! The tree form of a wire frame. Every frame of the event-stream protocol
//! is the rendering of one such tree: an object of string-keyed fields whose
//! values are strings, numbers, booleans, nested objects or arrays.
//!
//! [`render`] turns a tree into its text; [`parse_text`] turns text back into
//! a tree. Both are specified against pure functions over character
//! sequences, and rendering then parsing returns the original tree
//! ([`lemma_render_parse_round_trip`](crate::json_laws::lemma_render_parse_round_trip)).

use crate::text::{
    all_digits, char_from_u32, chars_to_string, digit_val, is_digit, lemma_digits_val_nonneg,
    lemma_digits_val_prefix_le, push_u64_string, spec_digit_char, spec_digit_val, spec_digits_val,
    spec_u64_string, str_to_chars,
};
use vstd::prelude::*;
use vstd::string::StrSliceExecFns;

verus! {

broadcast use {vstd::std_specs::vec::group_vec_axioms, vstd::seq::group_seq_axioms};

/// A wire value: the executable tree.
#[derive(Debug)]
pub enum JsonValue {
    Null,
    Bool(bool),
    Num(u64),
    Str(String),
    Arr(Vec<JsonValue>),
    Obj(Vec<(String, JsonValue)>),
}

/// A wire value: the mathematical tree that contracts speak of.
pub enum JsonSpec {
    Null,
    Bool(bool),
    Num(u64),
    Str(Seq<char>),
    Arr(Seq<JsonSpec>),
    Obj(Seq<(Seq<char>, JsonSpec)>),
}

/// The mathematical tree an executable tree stands for.
pub open spec fn json_view(v: JsonValue) -> JsonSpec
    decreases v,
{
    match v {
        JsonValue::Null => JsonSpec::Null,
        JsonValue::Bool(b) => JsonSpec::Bool(b),
        JsonValue::Num(n) => JsonSpec::Num(n),
        JsonValue::Str(s) => JsonSpec::Str(s@),
        JsonValue::Arr(xs) => JsonSpec::Arr(
            Seq::new(
                xs@.len(),
                |k: int|
                    if 0 <= k < xs@.len() {
                        json_view(xs@[k])
                    } else {
                        JsonSpec::Null
                    },
            ),
        ),
        JsonValue::Obj(ps) => JsonSpec::Obj(
            Seq::new(
                ps@.len(),
                |k: int|
                    if 0 <= k < ps@.len() {
                        (ps@[k].0@, json_view(ps@[k].1))
                    } else {
                        (Seq::<char>::empty(), JsonSpec::Null)
                    },
            ),
        ),
    }
}

impl View for JsonValue {
    type V = JsonSpec;

    open spec fn view(&self) -> JsonSpec {
        json_view(*self)
    }
}

/// The character for one hexadecimal digit value (lower case).
pub open spec fn spec_hex_char(d: int) -> char {
    if d < 10 {
        spec_digit_char(d)
    } else if d == 10 {
        'a'
    } else if d == 11 {
        'b'
    } else if d == 12 {
        'c'
    } else if d == 13 {
        'd'
    } else if d == 14 {
        'e'
    } else {
        'f'
    }
}

/// Whether a character is a hexadecimal digit, either case.
pub open spec fn is_hex(c: char) -> bool {
    is_digit(c) || ('a' <= c && c <= 'f') || ('A' <= c && c <= 'F')
}

/// The numeric value of a hexadecimal digit character.
pub open spec fn spec_hex_val(c: char) -> int {
    if is_digit(c) {
        spec_digit_val(c)
    } else if 'a' <= c && c <= 'f' {
        c as int - 'a' as int + 10
    } else {
        c as int - 'A' as int + 10
    }
}

/// How one character of a string is rendered: the two-character escapes of
/// the wire format, a `\u00XX` escape for the remaining control characters,
/// and the character itself otherwise.
pub open spec fn spec_escape_char(c: char) -> Seq<char> {
    if c == '"' {
        seq!['\\', '"']
    } else if c == '\\' {
        seq!['\\', '\\']
    } else if c == '\n' {
        seq!['\\', 'n']
    } else if c == '\r' {
        seq!['\\', 'r']
    } else if c == '\t' {
        seq!['\\', 't']
    } else if c == '\u{8}' {
        seq!['\\', 'b']
    } else if c == '\u{c}' {
        seq!['\\', 'f']
    } else if (c as u32) < 0x20 {
        seq![
            '\\',
            'u',
            '0',
            '0',
            spec_hex_char((c as u32 / 16) as int),
            spec_hex_char((c as u32 % 16) as int),
        ]
    } else {
        seq![c]
    }
}

/// The rendering of a string's characters, escapes applied.
pub open spec fn spec_escape(s: Seq<char>) -> Seq<char>
    decreases s.len(),
{
    if s.len() == 0 {
        Seq::empty()
    } else {
        spec_escape_char(s[0]) + spec_escape(s.skip(1))
    }
}

/// The rendering of a string value: quoted and escaped.
pub open spec fn spec_quoted(s: Seq<char>) -> Seq<char> {
    seq!['"'] + spec_escape(s) + seq!['"']
}

/// The rendering of a wire value as text, with no whitespace between
/// tokens.
pub open spec fn spec_render(j: JsonSpec) -> Seq<char>
    decreases j, 0int,
{
    match j {
        JsonSpec::Null => seq!['n', 'u', 'l', 'l'],
        JsonSpec::Bool(b) => if b {
            seq!['t', 'r', 'u', 'e']
        } else {
            seq!['f', 'a', 'l', 's', 'e']
        },
        JsonSpec::Num(n) => spec_u64_string(n),
        JsonSpec::Str(s) => spec_quoted(s),
        JsonSpec::Arr(xs) => seq!['['] + spec_render_items(xs, 0) + seq![']'],
        JsonSpec::Obj(ps) => seq!['{'] + spec_render_members(ps, 0) + seq!['}'],
    }
}

/// The rendering of an array's elements from position `k` on, separated by
/// commas.
pub open spec fn spec_render_items(xs: Seq<JsonSpec>, k: int) -> Seq<char>
    decreases xs, 1int, xs.len() - k,
{
    if k < 0 || k >= xs.len() {
        Seq::empty()
    } else if k == xs.len() - 1 {
        spec_render(xs[k])
    } else {
        spec_render(xs[k]) + seq![','] + spec_render_items(xs, k + 1)
    }
}

/// The rendering of an object's members from position `k` on: quoted key,
/// colon, value, separated by commas.
pub open spec fn spec_render_members(ps: Seq<(Seq<char>, JsonSpec)>, k: int) -> Seq<char>
    decreases ps, 1int, ps.len() - k,
{
    if k < 0 || k >= ps.len() {
        Seq::empty()
    } else if k == ps.len() - 1 {
        spec_quoted(ps[k].0) + seq![':'] + spec_render(ps[k].1)
    } else {
        spec_quoted(ps[k].0) + seq![':'] + spec_render(ps[k].1) + seq![','] + spec_render_members(
            ps,
            k + 1,
        )
    }
}

/// One hexadecimal digit character for a digit value.
pub fn hex_char(d: u8) -> (c: char)
    requires
        d < 16,
    ensures
        c == spec_hex_char(d as int),
{
    match d {
        0 => '0',
        1 => '1',
        2 => '2',
        3 => '3',
        4 => '4',
        5 => '5',
        6 => '6',
        7 => '7',
        8 => '8',
        9 => '9',
        10 => 'a',
        11 => 'b',
        12 => 'c',
        13 => 'd',
        14 => 'e',
        _ => 'f',
    }
}

/// Escaping a string one character longer appends that character's escape.
pub proof fn lemma_escape_push(s: Seq<char>, c: char)
    ensures
        spec_escape(s.push(c)) == spec_escape(s) + spec_escape_char(c),
    decreases s.len(),
{
    if s.len() == 0 {
        assert(s.push(c)[0] == c);
        assert(s.push(c).skip(1) =~= Seq::<char>::empty());
        assert(spec_escape(Seq::<char>::empty()) == Seq::<char>::empty());
        assert(spec_escape(s.push(c)) == spec_escape_char(c) + spec_escape(
            Seq::<char>::empty(),
        ));
        assert(spec_escape_char(c) + Seq::<char>::empty() =~= spec_escape_char(c));
        assert(spec_escape(s) == Seq::<char>::empty());
        assert(spec_escape(s) + spec_escape_char(c) =~= spec_escape_char(c));
    } else {
        lemma_escape_push(s.skip(1), c);
        assert(s.push(c)[0] == s[0]);
        assert(s.push(c).skip(1) =~= s.skip(1).push(c));
        assert(spec_escape(s.push(c)) == spec_escape_char(s[0]) + spec_escape(s.skip(1).push(c)));
        assert(spec_escape(s.push(c)) =~= spec_escape(s) + spec_escape_char(c));
    }
}

/// Appends the escaped rendering of a string's characters to `out`.
fn push_escaped(out: &mut Vec<char>, s: &str)
    ensures
        final(out)@ == old(out)@ + spec_escape(s@),
{
    let n = s.unicode_len();
    let mut i: usize = 0;
    proof {
        assert(s@.subrange(0, 0) =~= Seq::<char>::empty());
        assert(out@ =~= out@ + spec_escape(s@.subrange(0, 0)));
    }
    while i < n
        invariant
            n == s@.len(),
            0 <= i <= n,
            out@ == old(out)@ + spec_escape(s@.subrange(0, i as int)),
        decreases n - i,
    {
        let c = s.get_char(i);
        let ghost pre = s@.subrange(0, i as int);
        if c == '"' {
            out.push('\\');
            out.push('"');
        } else if c == '\\' {
            out.push('\\');
            out.push('\\');
        } else if c == '\n' {
            out.push('\\');
            out.push('n');
        } else if c == '\r' {
            out.push('\\');
            out.push('r');
        } else if c == '\t' {
            out.push('\\');
            out.push('t');
        } else if c == '\u{8}' {
            out.push('\\');
            out.push('b');
        } else if c == '\u{c}' {
            out.push('\\');
            out.push('f');
        } else if (c as u32) < 0x20 {
            let code = c as u32;
            out.push('\\');
            out.push('u');
            out.push('0');
            out.push('0');
            out.push(hex_char((code / 16) as u8));
            out.push(hex_char((code % 16) as u8));
        } else {
            out.push(c);
        }
        i = i + 1;
        proof {
            lemma_escape_push(pre, c);
            assert(s@.subrange(0, i as int) =~= pre.push(c));
            assert(out@ =~= old(out)@ + spec_escape(s@.subrange(0, i as int)));
        }
    }
    proof {
        assert(s@.subrange(0, n as int) =~= s@);
    }
}

/// Appends the quoted rendering of a string to `out`.
fn push_quoted(out: &mut Vec<char>, s: &str)
    ensures
        final(out)@ == old(out)@ + spec_quoted(s@),
{
    out.push('"');
    push_escaped(out, s);
    out.push('"');
    proof {
        assert(out@ =~= old(out)@ + spec_quoted(s@));
    }
}

/// Appends the rendering of a wire value to `out`.
pub fn render_into(v: &JsonValue, out: &mut Vec<char>)
    ensures
        final(out)@ == old(out)@ + spec_render(v@),
    decreases v, 0int,
{
    match v {
        JsonValue::Null => {
            out.push('n');
            out.push('u');
            out.push('l');
            out.push('l');
            proof {
                assert(out@ =~= old(out)@ + spec_render(v@));
            }
        },
        JsonValue::Bool(b) => {
            if *b {
                out.push('t');
                out.push('r');
                out.push('u');
                out.push('e');
            } else {
                out.push('f');
                out.push('a');
                out.push('l');
                out.push('s');
                out.push('e');
            }
            proof {
                assert(out@ =~= old(out)@ + spec_render(v@));
            }
        },
        JsonValue::Num(n) => {
            push_u64_string(out, *n);
        },
        JsonValue::Str(s) => {
            push_quoted(out, s.as_str());
        },
        JsonValue::Arr(xs) => {
            out.push('[');
            if xs.len() > 0 {
                render_items(xs, 0, out);
            }
            out.push(']');
            proof {
                if xs@.len() == 0 {
                    assert(spec_render_items(v@->Arr_0, 0) =~= Seq::<char>::empty());
                }
                assert(v@->Arr_0 =~= Seq::new(xs@.len(), |k: int| json_view(xs@[k])));
                assert(out@ =~= old(out)@ + spec_render(v@));
            }
        },
        JsonValue::Obj(ps) => {
            out.push('{');
            if ps.len() > 0 {
                render_members(ps, 0, out);
            }
            out.push('}');
            proof {
                if ps@.len() == 0 {
                    assert(spec_render_members(v@->Obj_0, 0) =~= Seq::<char>::empty());
                }
                assert(v@->Obj_0 =~= json_view_members(ps@));
                assert(out@ =~= old(out)@ + spec_render(v@));
            }
        },
    }
}

/// The mathematical elements of an executable element vector.
pub open spec fn json_view_seq(xs: Seq<JsonValue>) -> Seq<JsonSpec> {
    Seq::new(xs.len(), |k: int| json_view(xs[k]))
}

/// The mathematical members of an executable member vector.
pub open spec fn json_view_members(ps: Seq<(String, JsonValue)>) -> Seq<(Seq<char>, JsonSpec)> {
    Seq::new(ps.len(), |k: int| (ps[k].0@, json_view(ps[k].1)))
}

/// Appends the rendering of the elements from position `k` on to `out`.
fn render_items(xs: &Vec<JsonValue>, k: usize, out: &mut Vec<char>)
    requires
        k < xs@.len(),
    ensures
        final(out)@ == old(out)@ + spec_render_items(json_view_seq(xs@), k as int),
    decreases xs, 1int, xs@.len() - k,
{
    let n = xs.len();
    render_into(&xs[k], out);
    proof {
        assert(json_view_seq(xs@)[k as int] == json_view(xs@[k as int]));
    }
    if k < n - 1 {
        out.push(',');
        render_items(xs, k + 1, out);
        proof {
            assert(out@ =~= old(out)@ + spec_render_items(json_view_seq(xs@), k as int));
        }
    } else {
        proof {
            assert(k as int == json_view_seq(xs@).len() - 1);
            assert(out@ =~= old(out)@ + spec_render_items(json_view_seq(xs@), k as int));
        }
    }
}

/// Appends the rendering of the members from position `k` on to `out`.
fn render_members(ps: &Vec<(String, JsonValue)>, k: usize, out: &mut Vec<char>)
    requires
        k < ps@.len(),
    ensures
        final(out)@ == old(out)@ + spec_render_members(json_view_members(ps@), k as int),
    decreases ps, 1int, ps@.len() - k,
{
    let n = ps.len();
    push_quoted(out, ps[k].0.as_str());
    out.push(':');
    render_into(&ps[k].1, out);
    proof {
        assert(json_view_members(ps@)[k as int] == (ps@[k as int].0@, json_view(ps@[k as int].1)));
    }
    if k < n - 1 {
        out.push(',');
        render_members(ps, k + 1, out);
        proof {
            assert(out@ =~= old(out)@ + spec_render_members(json_view_members(ps@), k as int));
        }
    } else {
        proof {
            assert(k as int == json_view_members(ps@).len() - 1);
            assert(out@ =~= old(out)@ + spec_render_members(json_view_members(ps@), k as int));
        }
    }
}

/// The rendering of a wire value as text.
pub fn render(v: &JsonValue) -> (r: String)
    ensures
        r@ == spec_render(v@),
{
    let mut out: Vec<char> = Vec::new();
    render_into(v, &mut out);
    chars_to_string(out)
}

/// An executable element vector views to its elements' views.
pub proof fn lemma_view_arr(xs: Vec<JsonValue>)
    ensures
        json_view(JsonValue::Arr(xs)) == JsonSpec::Arr(json_view_seq(xs@)),
{
    assert(json_view(JsonValue::Arr(xs))->Arr_0 =~= json_view_seq(xs@));
}

/// An executable member vector views to its members' views.
pub proof fn lemma_view_obj(ps: Vec<(String, JsonValue)>)
    ensures
        json_view(JsonValue::Obj(ps)) == JsonSpec::Obj(json_view_members(ps@)),
{
    assert(json_view(JsonValue::Obj(ps))->Obj_0 =~= json_view_members(ps@));
}

/// Whether a character is insignificant whitespace between tokens.
pub open spec fn is_ws(c: char) -> bool {
    c == ' ' || c == '\n' || c == '\r' || c == '\t'
}

/// The first position at or after `i` that does not hold whitespace.
pub open spec fn spec_skip_ws(s: Seq<char>, i: int) -> int
    decreases s.len() - i,
{
    if 0 <= i < s.len() && is_ws(s[i]) {
        spec_skip_ws(s, i + 1)
    } else {
        i
    }
}

/// Skipping whitespace stays within the text.
pub proof fn lemma_skip_ws_bounds(s: Seq<char>, i: int)
    requires
        0 <= i <= s.len(),
    ensures
        i <= spec_skip_ws(s, i) <= s.len(),
    decreases s.len() - i,
{
    if i < s.len() && is_ws(s[i]) {
        lemma_skip_ws_bounds(s, i + 1);
    }
}

/// The character an escape letter stands for; `None` when the letter is not
/// one of the wire format's short escapes.
pub open spec fn spec_unescape_char(e: char) -> Option<char> {
    if e == '"' {
        Some('"')
    } else if e == '\\' {
        Some('\\')
    } else if e == '/' {
        Some('/')
    } else if e == 'n' {
        Some('\n')
    } else if e == 'r' {
        Some('\r')
    } else if e == 't' {
        Some('\t')
    } else if e == 'b' {
        Some('\u{8}')
    } else if e == 'f' {
        Some('\u{c}')
    } else {
        None
    }
}

/// The code point of four hexadecimal digit characters.
pub open spec fn spec_hex4_val(s: Seq<char>, i: int) -> int {
    ((spec_hex_val(s[i]) * 16 + spec_hex_val(s[i + 1])) * 16 + spec_hex_val(s[i + 2])) * 16
        + spec_hex_val(s[i + 3])
}

/// What parsing a string body yields, starting just after the opening
/// quote: the unescaped content and the position after the closing quote.
/// A `\uXXXX` escape must name a Unicode scalar value; surrogate code
/// points are refused.
pub open spec fn spec_parse_string_body(s: Seq<char>, i: int) -> Option<(Seq<char>, int)>
    decreases s.len() - i,
{
    if i < 0 || i >= s.len() {
        None
    } else if s[i] == '"' {
        Some((Seq::empty(), i + 1))
    } else if s[i] == '\\' {
        if i + 1 >= s.len() {
            None
        } else if s[i + 1] == 'u' {
            if i + 6 > s.len() {
                None
            } else if is_hex(s[i + 2]) && is_hex(s[i + 3]) && is_hex(s[i + 4]) && is_hex(
                s[i + 5],
            ) {
                let v = spec_hex4_val(s, i + 2);
                if v < 0xD800 || v > 0xDFFF {
                    match spec_parse_string_body(s, i + 6) {
                        Some((rest, j)) => Some((seq![(v as u32) as char] + rest, j)),
                        None => None,
                    }
                } else {
                    None
                }
            } else {
                None
            }
        } else {
            match spec_unescape_char(s[i + 1]) {
                Some(c) => match spec_parse_string_body(s, i + 2) {
                    Some((rest, j)) => Some((seq![c] + rest, j)),
                    None => None,
                },
                None => None,
            }
        }
    } else {
        match spec_parse_string_body(s, i + 1) {
            Some((rest, j)) => Some((seq![s[i]] + rest, j)),
            None => None,
        }
    }
}

/// A parsed string body ends after its opening position and within the
/// text.
pub proof fn lemma_parse_string_body_bounds(s: Seq<char>, i: int)
    requires
        0 <= i,
    ensures
        spec_parse_string_body(s, i) matches Some((c, j)) ==> i < j <= s.len(),
    decreases s.len() - i,
{
    if 0 <= i < s.len() {
        if s[i] == '\\' {
            if i + 1 < s.len() && s[i + 1] == 'u' {
                if i + 6 <= s.len() {
                    lemma_parse_string_body_bounds(s, i + 6);
                }
            } else {
                if i + 2 <= s.len() {
                    lemma_parse_string_body_bounds(s, i + 2);
                }
            }
        } else if s[i] != '"' {
            lemma_parse_string_body_bounds(s, i + 1);
        }
    }
}

/// The end of the run of decimal digits starting at `i`.
pub open spec fn spec_digit_run_end(s: Seq<char>, i: int) -> int
    decreases s.len() - i,
{
    if 0 <= i < s.len() && is_digit(s[i]) {
        spec_digit_run_end(s, i + 1)
    } else {
        i
    }
}

/// A digit run stays within the text, and covers only digits.
pub proof fn lemma_digit_run_bounds(s: Seq<char>, i: int)
    requires
        0 <= i <= s.len(),
    ensures
        i <= spec_digit_run_end(s, i) <= s.len(),
        forall|m: int|
            i <= m < spec_digit_run_end(s, i) ==> is_digit(#[trigger] s[m]),
        spec_digit_run_end(s, i) < s.len() ==> !is_digit(s[spec_digit_run_end(s, i)]),
    decreases s.len() - i,
{
    if i < s.len() && is_digit(s[i]) {
        lemma_digit_run_bounds(s, i + 1);
    }
}

/// What parsing a number yields: the value of the maximal digit run
/// starting at `i`, which must be nonempty and fit in 64 bits unsigned.
pub open spec fn spec_parse_number(s: Seq<char>, i: int) -> Option<(u64, int)> {
    let e = spec_digit_run_end(s, i);
    if e <= i {
        None
    } else if spec_digits_val(s.subrange(i, e)) <= u64::MAX {
        Some((spec_digits_val(s.subrange(i, e)) as u64, e))
    } else {
        None
    }
}

/// What parsing one wire value yields, starting at `i0`: leading
/// whitespace is skipped, then one value is read; the result carries the
/// position just after the value.
pub open spec fn spec_parse_value(s: Seq<char>, i0: int) -> Option<(JsonSpec, int)>
    decreases s.len() - i0, 0int,
{
    let i = spec_skip_ws(s, i0);
    if i < i0 || i >= s.len() {
        None
    } else if s[i] == 'n' {
        if i + 4 <= s.len() && s.subrange(i, i + 4) == seq!['n', 'u', 'l', 'l'] {
            Some((JsonSpec::Null, i + 4))
        } else {
            None
        }
    } else if s[i] == 't' {
        if i + 4 <= s.len() && s.subrange(i, i + 4) == seq!['t', 'r', 'u', 'e'] {
            Some((JsonSpec::Bool(true), i + 4))
        } else {
            None
        }
    } else if s[i] == 'f' {
        if i + 5 <= s.len() && s.subrange(i, i + 5) == seq!['f', 'a', 'l', 's', 'e'] {
            Some((JsonSpec::Bool(false), i + 5))
        } else {
            None
        }
    } else if s[i] == '"' {
        match spec_parse_string_body(s, i + 1) {
            Some((cs, j)) => Some((JsonSpec::Str(cs), j)),
            None => None,
        }
    } else if is_digit(s[i]) {
        match spec_parse_number(s, i) {
            Some((n, j)) => Some((JsonSpec::Num(n), j)),
            None => None,
        }
    } else if s[i] == '[' {
        let i2 = spec_skip_ws(s, i + 1);
        if i2 < s.len() && s[i2] == ']' {
            Some((JsonSpec::Arr(Seq::empty()), i2 + 1))
        } else {
            match spec_parse_elems(s, i + 1) {
                Some((xs, j)) => Some((JsonSpec::Arr(xs), j)),
                None => None,
            }
        }
    } else if s[i] == '{' {
        let i2 = spec_skip_ws(s, i + 1);
        if i2 < s.len() && s[i2] == '}' {
            Some((JsonSpec::Obj(Seq::empty()), i2 + 1))
        } else {
            match spec_parse_members(s, i + 1) {
                Some((ps, j)) => Some((JsonSpec::Obj(ps), j)),
                None => None,
            }
        }
    } else {
        None
    }
}

/// What parsing one or more comma-separated array elements yields,
/// starting at `i` just after the bracket or comma, up to and including
/// the closing bracket.
pub open spec fn spec_parse_elems(s: Seq<char>, i: int) -> Option<(Seq<JsonSpec>, int)>
    decreases s.len() - i, 1int,
{
    match spec_parse_value(s, i) {
        Some((v, j)) => if j <= i {
            None
        } else {
            let j2 = spec_skip_ws(s, j);
            if j2 < j {
                None
            } else if j2 < s.len() && s[j2] == ',' {
                match spec_parse_elems(s, j2 + 1) {
                    Some((rest, k)) => Some((seq![v] + rest, k)),
                    None => None,
                }
            } else if j2 < s.len() && s[j2] == ']' {
                Some((seq![v], j2 + 1))
            } else {
                None
            }
        },
        None => None,
    }
}

/// What parsing one or more object members yields, starting at `i` just
/// after the brace or comma, up to and including the closing brace.
pub open spec fn spec_parse_members(s: Seq<char>, i: int) -> Option<
    (Seq<(Seq<char>, JsonSpec)>, int),
>
    decreases s.len() - i, 1int,
{
    let i2 = spec_skip_ws(s, i);
    if i2 < i {
        None
    } else if i2 < s.len() && s[i2] == '"' {
        match spec_parse_string_body(s, i2 + 1) {
            Some((key, j)) => if j <= i2 {
                None
            } else {
                let j2 = spec_skip_ws(s, j);
                if j2 < j {
                    None
                } else if j2 < s.len() && s[j2] == ':' {
                    match spec_parse_value(s, j2 + 1) {
                        Some((v, k)) => if k <= j2 {
                            None
                        } else {
                            let k2 = spec_skip_ws(s, k);
                            if k2 < k {
                                None
                            } else if k2 < s.len() && s[k2] == ',' {
                                match spec_parse_members(s, k2 + 1) {
                                    Some((rest, m)) => Some((seq![(key, v)] + rest, m)),
                                    None => None,
                                }
                            } else if k2 < s.len() && s[k2] == '}' {
                                Some((seq![(key, v)], k2 + 1))
                            } else {
                                None
                            }
                        },
                        None => None,
                    }
                } else {
                    None
                }
            },
            None => None,
        }
    } else {
        None
    }
}

/// What parsing a whole text yields: one wire value with nothing but
/// whitespace around it.
pub open spec fn spec_parse_json(s: Seq<char>) -> Option<JsonSpec> {
    match spec_parse_value(s, 0) {
        Some((j, e)) => if spec_skip_ws(s, e) == s.len() {
            Some(j)
        } else {
            None
        },
        None => None,
    }
}

/// The first non-whitespace position at or after `i`.
fn skip_ws(s: &[char], i: usize) -> (r: usize)
    requires
        i <= s@.len(),
    ensures
        r == spec_skip_ws(s@, i as int),
        i <= r <= s@.len(),
{
    let mut m = i;
    while m < s.len() && (s[m] == ' ' || s[m] == '\n' || s[m] == '\r' || s[m] == '\t')
        invariant
            i <= m <= s@.len(),
            spec_skip_ws(s@, i as int) == spec_skip_ws(s@, m as int),
        decreases s@.len() - m,
    {
        m = m + 1;
    }
    m
}

/// Whether a character is a decimal digit.
fn is_digit_char(c: char) -> (r: bool)
    ensures
        r == is_digit(c),
{
    '0' <= c && c <= '9'
}

/// Whether a character is a hexadecimal digit, either case.
fn is_hex_char(c: char) -> (r: bool)
    ensures
        r == is_hex(c),
{
    ('0' <= c && c <= '9') || ('a' <= c && c <= 'f') || ('A' <= c && c <= 'F')
}

/// The numeric value of a hexadecimal digit character.
fn hex_val(c: char) -> (d: u8)
    requires
        is_hex(c),
    ensures
        d == spec_hex_val(c),
        d < 16,
{
    if '0' <= c && c <= '9' {
        (c as u8) - ('0' as u8)
    } else if 'a' <= c && c <= 'f' {
        (c as u8) - ('a' as u8) + 10
    } else {
        (c as u8) - ('A' as u8) + 10
    }
}

/// Parses a string body starting just after the opening quote.
fn parse_string_body(s: &[char], i: usize) -> (r: Option<(String, usize)>)
    requires
        i <= s@.len(),
    ensures
        match r {
            Some((c, j)) => spec_parse_string_body(s@, i as int) == Some((c@, j as int)) && i < j
                <= s@.len(),
            None => spec_parse_string_body(s@, i as int) is None,
        },
{
    let mut m = i;
    let mut acc: Vec<char> = Vec::new();
    proof {
        match spec_parse_string_body(s@, i as int) {
            Some((rest, j)) => {
                assert(Seq::<char>::empty() + rest =~= rest);
            },
            None => {},
        }
    }
    loop
        invariant
            i <= m <= s@.len(),
            spec_parse_string_body(s@, i as int) == match spec_parse_string_body(s@, m as int) {
                Some((rest, j)) => Some((acc@ + rest, j)),
                None => None::<(Seq<char>, int)>,
            },
        decreases s@.len() - m,
    {
        if m >= s.len() {
            return None;
        }
        let c = s[m];
        if c == '"' {
            proof {
                assert(spec_parse_string_body(s@, m as int) == Some(
                    (Seq::<char>::empty(), m + 1int),
                ));
                assert(acc@ + Seq::<char>::empty() =~= acc@);
                lemma_parse_string_body_bounds(s@, i as int);
            }
            return Some((chars_to_string(acc), m + 1));
        } else if c == '\\' {
            if m + 1 >= s.len() {
                return None;
            }
            let e = s[m + 1];
            if e == 'u' {
                if s.len() - m < 6 {
                    return None;
                }
                let h1 = s[m + 2];
                let h2 = s[m + 3];
                let h3 = s[m + 4];
                let h4 = s[m + 5];
                if !(is_hex_char(h1) && is_hex_char(h2) && is_hex_char(h3) && is_hex_char(h4)) {
                    return None;
                }
                let v: u32 = ((hex_val(h1) as u32 * 16 + hex_val(h2) as u32) * 16 + hex_val(
                    h3,
                ) as u32) * 16 + hex_val(h4) as u32;
                proof {
                    assert(v == spec_hex4_val(s@, m + 2int));
                    assert(v < 0x10000);
                }
                if v >= 0xD800 && v <= 0xDFFF {
                    return None;
                }
                let c2 = match char_from_u32(v) {
                    Some(c2) => c2,
                    None => {
                        proof {
                            assert(false);
                        }
                        return None;
                    },
                };
                proof {
                    vstd::utf8::char_u32_cast(c2, v);
                }
                let ghost acc_old = acc@;
                let ghost m_old = m as int;
                acc.push(c2);
                m = m + 6;
                proof {
                    assert((v as u32) as char == c2);
                    lemma_psb_step(s@, i as int, m_old, acc_old, seq![c2], m as int);
                }
            } else {
                let c2 = match e {
                    '"' => '"',
                    '\\' => '\\',
                    '/' => '/',
                    'n' => '\n',
                    'r' => '\r',
                    't' => '\t',
                    'b' => '\u{8}',
                    'f' => '\u{c}',
                    _ => {
                        return None;
                    },
                };
                proof {
                    assert(spec_unescape_char(e) == Some(c2));
                }
                let ghost acc_old = acc@;
                let ghost m_old = m as int;
                acc.push(c2);
                m = m + 2;
                proof {
                    lemma_psb_step(s@, i as int, m_old, acc_old, seq![c2], m as int);
                }
            }
        } else {
            let ghost acc_old = acc@;
            let ghost m_old = m as int;
            acc.push(c);
            m = m + 1;
            proof {
                lemma_psb_step(s@, i as int, m_old, acc_old, seq![c], m as int);
            }
        }
    }
}

/// One unfolding step of the string-body invariant: when the parse at
/// `m_old` prepends `chunk` to the parse at `m_new`, the accumulated
/// content moves along with it.
proof fn lemma_psb_step(s: Seq<char>, i0: int, m_old: int, acc_old: Seq<char>, chunk: Seq<char>, m_new: int)
    requires
        spec_parse_string_body(s, i0) == match spec_parse_string_body(s, m_old) {
            Some((rest, j)) => Some((acc_old + rest, j)),
            None => None::<(Seq<char>, int)>,
        },
        spec_parse_string_body(s, m_old) == match spec_parse_string_body(s, m_new) {
            Some((rest, j)) => Some((chunk + rest, j)),
            None => None::<(Seq<char>, int)>,
        },
    ensures
        spec_parse_string_body(s, i0) == match spec_parse_string_body(s, m_new) {
            Some((rest, j)) => Some(((acc_old + chunk) + rest, j)),
            None => None::<(Seq<char>, int)>,
        },
{
    match spec_parse_string_body(s, m_new) {
        Some((rest, j)) => {
            assert(acc_old + (chunk + rest) =~= (acc_old + chunk) + rest);
        },
        None => {},
    }
}

/// Parses the maximal digit run starting at `i` as an unsigned 64-bit
/// number.
fn parse_number(s: &[char], i: usize) -> (r: Option<(u64, usize)>)
    requires
        i <= s@.len(),
    ensures
        match r {
            Some((n, j)) => spec_parse_number(s@, i as int) == Some((n, j as int)) && i < j
                <= s@.len(),
            None => spec_parse_number(s@, i as int) is None,
        },
{
    proof {
        lemma_digit_run_bounds(s@, i as int);
    }
    let ghost e = spec_digit_run_end(s@, i as int);
    let mut m = i;
    let mut acc: u64 = 0;
    while m < s.len() && is_digit_char(s[m])
        invariant
            i <= m <= s@.len(),
            spec_digit_run_end(s@, i as int) == spec_digit_run_end(s@, m as int),
            e == spec_digit_run_end(s@, i as int),
            m <= e,
            all_digits(s@.subrange(i as int, m as int)),
            acc == spec_digits_val(s@.subrange(i as int, m as int)),
        decreases s@.len() - m,
    {
        let d = digit_val(s[m]);
        proof {
            lemma_digits_val_nonneg(s@.subrange(i as int, m as int));
        }
        if acc > (u64::MAX - (d as u64)) / 10 {
            proof {
                lemma_digit_run_bounds(s@, i as int);
                let run = s@.subrange(i as int, e);
                assert(forall|k: int| 0 <= k < run.len() ==> is_digit(#[trigger] run[k]));
                let p = s@.subrange(i as int, m + 1);
                assert(p.drop_last() =~= s@.subrange(i as int, m as int));
                assert(p.last() == s@[m as int]);
                assert(spec_digits_val(p) == acc * 10 + d);
                assert(acc * 10 + d > u64::MAX) by (nonlinear_arith)
                    requires
                        acc > (u64::MAX - (d as u64)) / 10,
                        d < 10,
                ;
                assert(p =~= run.subrange(0, m + 1 - i));
                lemma_digits_val_prefix_le(run, m + 1 - i);
                assert(spec_digits_val(run) > u64::MAX);
            }
            return None;
        }
        proof {
            assert(acc * 10 + d <= u64::MAX) by (nonlinear_arith)
                requires
                    acc <= (u64::MAX - (d as u64)) / 10,
                    d < 10,
            ;
        }
        let ghost prev = s@.subrange(i as int, m as int);
        acc = acc * 10 + (d as u64);
        m = m + 1;
        proof {
            let p = s@.subrange(i as int, m as int);
            assert(p.drop_last() =~= prev);
            assert(p.last() == s@[m - 1]);
            assert(p =~= prev.push(s@[m - 1]));
            lemma_digit_run_bounds(s@, m as int);
        }
    }
    proof {
        assert(spec_digit_run_end(s@, m as int) == m as int);
        assert(m == e);
    }
    if m == i {
        return None;
    }
    Some((acc, m))
}

/// Parses one wire value, skipping leading whitespace.
pub fn parse_value(s: &[char], i: usize) -> (r: Option<(JsonValue, usize)>)
    requires
        i <= s@.len(),
    ensures
        match r {
            Some((v, j)) => spec_parse_value(s@, i as int) == Some((json_view(v), j as int)) && i
                < j <= s@.len(),
            None => spec_parse_value(s@, i as int) is None,
        },
    decreases s@.len() - i, 0int,
{
    let m = skip_ws(s, i);
    if m >= s.len() {
        return None;
    }
    let c = s[m];
    if c == 'n' {
        if s.len() - m >= 4 && s[m + 1] == 'u' && s[m + 2] == 'l' && s[m + 3] == 'l' {
            proof {
                assert(s@.subrange(m as int, m + 4) =~= seq!['n', 'u', 'l', 'l']);
            }
            Some((JsonValue::Null, m + 4))
        } else {
            proof {
                if m + 4 <= s@.len() {
                    assert(s@.subrange(m as int, m + 4) != seq!['n', 'u', 'l', 'l']) by {
                        let t = s@.subrange(m as int, m + 4);
                        let lit = seq!['n', 'u', 'l', 'l'];
                        if t == lit {
                            assert(t[1] == s@[m + 1] && t[2] == s@[m + 2] && t[3] == s@[m + 3]);
                            assert(lit[1] == 'u' && lit[2] == 'l' && lit[3] == 'l');
                        }
                    }
                }
            }
            None
        }
    } else if c == 't' {
        if s.len() - m >= 4 && s[m + 1] == 'r' && s[m + 2] == 'u' && s[m + 3] == 'e' {
            proof {
                assert(s@.subrange(m as int, m + 4) =~= seq!['t', 'r', 'u', 'e']);
            }
            Some((JsonValue::Bool(true), m + 4))
        } else {
            proof {
                if m + 4 <= s@.len() {
                    assert(s@.subrange(m as int, m + 4) != seq!['t', 'r', 'u', 'e']) by {
                        let t = s@.subrange(m as int, m + 4);
                        let lit = seq!['t', 'r', 'u', 'e'];
                        if t == lit {
                            assert(t[1] == s@[m + 1] && t[2] == s@[m + 2] && t[3] == s@[m + 3]);
                            assert(lit[1] == 'r' && lit[2] == 'u' && lit[3] == 'e');
                        }
                    }
                }
            }
            None
        }
    } else if c == 'f' {
        if s.len() - m >= 5 && s[m + 1] == 'a' && s[m + 2] == 'l' && s[m + 3] == 's' && s[m + 4]
            == 'e' {
            proof {
                assert(s@.subrange(m as int, m + 5) =~= seq!['f', 'a', 'l', 's', 'e']);
            }
            Some((JsonValue::Bool(false), m + 5))
        } else {
            proof {
                if m + 5 <= s@.len() {
                    assert(s@.subrange(m as int, m + 5) != seq!['f', 'a', 'l', 's', 'e']) by {
                        let t = s@.subrange(m as int, m + 5);
                        let lit = seq!['f', 'a', 'l', 's', 'e'];
                        if t == lit {
                            assert(t[1] == s@[m + 1] && t[2] == s@[m + 2] && t[3] == s@[m + 3]
                                && t[4] == s@[m + 4]);
                            assert(lit[1] == 'a' && lit[2] == 'l' && lit[3] == 's' && lit[4]
                                == 'e');
                        }
                    }
                }
            }
            None
        }
    } else if c == '"' {
        match parse_string_body(s, m + 1) {
            Some((cs, j)) => Some((JsonValue::Str(cs), j)),
            None => None,
        }
    } else if is_digit_char(c) {
        match parse_number(s, m) {
            Some((n, j)) => Some((JsonValue::Num(n), j)),
            None => None,
        }
    } else if c == '[' {
        let i2 = skip_ws(s, m + 1);
        if i2 < s.len() && s[i2] == ']' {
            let v = JsonValue::Arr(Vec::new());
            proof {
                assert(json_view(v)->Arr_0 =~= Seq::<JsonSpec>::empty());
            }
            Some((v, i2 + 1))
        } else {
            match parse_elems(s, m + 1) {
                Some((xs, j)) => {
                    proof {
                        lemma_view_arr(xs);
                    }
                    Some((JsonValue::Arr(xs), j))
                },
                None => None,
            }
        }
    } else if c == '{' {
        let i2 = skip_ws(s, m + 1);
        if i2 < s.len() && s[i2] == '}' {
            let v = JsonValue::Obj(Vec::new());
            proof {
                assert(json_view(v)->Obj_0 =~= Seq::<(Seq<char>, JsonSpec)>::empty());
            }
            Some((v, i2 + 1))
        } else {
            match parse_members(s, m + 1) {
                Some((ps, j)) => {
                    proof {
                        lemma_view_obj(ps);
                    }
                    Some((JsonValue::Obj(ps), j))
                },
                None => None,
            }
        }
    } else {
        None
    }
}

/// Parses one or more comma-separated elements up to and including the
/// closing bracket.
fn parse_elems(s: &[char], i: usize) -> (r: Option<(Vec<JsonValue>, usize)>)
    requires
        i <= s@.len(),
    ensures
        match r {
            Some((xs, j)) => spec_parse_elems(s@, i as int) == Some(
                (json_view_seq(xs@), j as int),
            ) && i < j <= s@.len(),
            None => spec_parse_elems(s@, i as int) is None,
        },
    decreases s@.len() - i, 1int,
{
    match parse_value(s, i) {
        Some((v, j)) => {
            let j2 = skip_ws(s, j);
            if j2 < s.len() && s[j2] == ',' {
                match parse_elems(s, j2 + 1) {
                    Some((rest, k)) => {
                        let ghost rest_old = rest@;
                        let mut xs = rest;
                        xs.insert(0, v);
                        proof {
                            assert(json_view_seq(xs@) =~= seq![json_view(v)] + json_view_seq(
                                rest_old,
                            ));
                        }
                        Some((xs, k))
                    },
                    None => None,
                }
            } else if j2 < s.len() && s[j2] == ']' {
                let mut xs: Vec<JsonValue> = Vec::new();
                xs.push(v);
                proof {
                    assert(json_view_seq(xs@) =~= seq![json_view(v)]);
                }
                Some((xs, j2 + 1))
            } else {
                None
            }
        },
        None => None,
    }
}

/// Parses one or more object members up to and including the closing
/// brace.
fn parse_members(s: &[char], i: usize) -> (r: Option<(Vec<(String, JsonValue)>, usize)>)
    requires
        i <= s@.len(),
    ensures
        match r {
            Some((ps, j)) => spec_parse_members(s@, i as int) == Some(
                (json_view_members(ps@), j as int),
            ) && i < j <= s@.len(),
            None => spec_parse_members(s@, i as int) is None,
        },
    decreases s@.len() - i, 1int,
{
    let i2 = skip_ws(s, i);
    if i2 < s.len() && s[i2] == '"' {
        match parse_string_body(s, i2 + 1) {
            Some((key, j)) => {
                let j2 = skip_ws(s, j);
                if j2 < s.len() && s[j2] == ':' {
                    match parse_value(s, j2 + 1) {
                        Some((v, k)) => {
                            let k2 = skip_ws(s, k);
                            if k2 < s.len() && s[k2] == ',' {
                                match parse_members(s, k2 + 1) {
                                    Some((rest, m)) => {
                                        let ghost rest_old = rest@;
                                        let ghost key_v = key@;
                                        let mut ps = rest;
                                        ps.insert(0, (key, v));
                                        proof {
                                            assert(json_view_members(ps@) =~= seq![
                                                (key_v, json_view(v)),
                                            ] + json_view_members(rest_old));
                                        }
                                        Some((ps, m))
                                    },
                                    None => None,
                                }
                            } else if k2 < s.len() && s[k2] == '}' {
                                let ghost key_v = key@;
                                let mut ps: Vec<(String, JsonValue)> = Vec::new();
                                ps.push((key, v));
                                proof {
                                    assert(json_view_members(ps@) =~= seq![(key_v, json_view(v))]);
                                }
                                Some((ps, k2 + 1))
                            } else {
                                None
                            }
                        },
                        None => None,
                    }
                } else {
                    None
                }
            },
            None => None,
        }
    } else {
        None
    }
}

/// Parses a whole text as one wire value.
pub fn parse_text(s: &str) -> (r: Option<JsonValue>)
    ensures
        match r {
            Some(v) => spec_parse_json(s@) == Some(json_view(v)),
            None => spec_parse_json(s@) is None,
        },
{
    let chars = str_to_chars(s);
    match parse_value(chars.as_slice(), 0) {
        Some((v, j)) => {
            let e = skip_ws(chars.as_slice(), j);
            if e == chars.len() {
                Some(v)
            } else {
                None
            }
        },
        None => None,
    }
}

} // verus!
