//! Decimal text: formatting integers as decimal digit strings and parsing
//! them back, with exact specifications. Every numeric field of the wire
//! protocol travels as such a string.

use vstd::prelude::*;
use vstd::string::*;

verus! {

/// The character for one decimal digit value.
pub open spec fn spec_digit_char(d: int) -> char {
    if d == 0 {
        '0'
    } else if d == 1 {
        '1'
    } else if d == 2 {
        '2'
    } else if d == 3 {
        '3'
    } else if d == 4 {
        '4'
    } else if d == 5 {
        '5'
    } else if d == 6 {
        '6'
    } else if d == 7 {
        '7'
    } else if d == 8 {
        '8'
    } else {
        '9'
    }
}

/// Whether a character is a decimal digit.
pub open spec fn is_digit(c: char) -> bool {
    '0' <= c && c <= '9'
}

/// The numeric value of a decimal digit character.
pub open spec fn spec_digit_val(c: char) -> int {
    c as int - '0' as int
}

/// The decimal rendering of an unsigned integer, most significant digit
/// first, with no leading zeros (`0` renders as `"0"`).
pub open spec fn spec_u64_string(n: u64) -> Seq<char>
    decreases n,
{
    if n < 10 {
        seq![spec_digit_char(n as int)]
    } else {
        spec_u64_string(n / 10).push(spec_digit_char((n % 10) as int))
    }
}

/// Whether every character of a sequence is a decimal digit.
pub open spec fn all_digits(s: Seq<char>) -> bool {
    forall|i: int| 0 <= i < s.len() ==> is_digit(#[trigger] s[i])
}

/// The value of a sequence of decimal digits, most significant first.
pub open spec fn spec_digits_val(s: Seq<char>) -> int
    decreases s.len(),
{
    if s.len() == 0 {
        0
    } else {
        spec_digits_val(s.drop_last()) * 10 + spec_digit_val(s.last())
    }
}

/// What parsing an unsigned 64-bit integer out of a whole string yields:
/// the string must be one or more decimal digits whose value fits.
pub open spec fn spec_parse_u64(s: Seq<char>) -> Option<u64> {
    if s.len() > 0 && all_digits(s) && spec_digits_val(s) <= u64::MAX {
        Some(spec_digits_val(s) as u64)
    } else {
        None
    }
}

/// What parsing a signed 64-bit integer out of a whole string yields: an
/// optional leading minus sign, then one or more decimal digits, the value
/// within the signed range.
pub open spec fn spec_parse_i64(s: Seq<char>) -> Option<i64> {
    if s.len() > 0 && s[0] == '-' {
        let digits = s.subrange(1, s.len() as int);
        if digits.len() > 0 && all_digits(digits) && -spec_digits_val(digits) >= i64::MIN {
            Some((-spec_digits_val(digits)) as i64)
        } else {
            None
        }
    } else {
        if s.len() > 0 && all_digits(s) && spec_digits_val(s) <= i64::MAX {
            Some(spec_digits_val(s) as i64)
        } else {
            None
        }
    }
}

/// A digit-sequence value is never negative.
pub proof fn lemma_digits_val_nonneg(s: Seq<char>)
    requires
        all_digits(s),
    ensures
        spec_digits_val(s) >= 0,
    decreases s.len(),
{
    if s.len() > 0 {
        assert(all_digits(s.drop_last()));
        lemma_digits_val_nonneg(s.drop_last());
    }
}

/// Extending a digit sequence on the right can only increase its value.
pub proof fn lemma_digits_val_prefix_le(s: Seq<char>, i: int)
    requires
        all_digits(s),
        0 <= i <= s.len(),
    ensures
        spec_digits_val(s.subrange(0, i)) <= spec_digits_val(s),
    decreases s.len() - i,
{
    if i < s.len() {
        lemma_digits_val_prefix_le(s, i + 1);
        let p = s.subrange(0, i + 1);
        assert(p.drop_last() =~= s.subrange(0, i));
        assert(all_digits(s.subrange(0, i)));
        lemma_digits_val_nonneg(s.subrange(0, i));
        assert(spec_digits_val(p) == spec_digits_val(s.subrange(0, i)) * 10 + spec_digit_val(
            p.last(),
        ));
        assert(spec_digit_val(p.last()) >= 0);
        assert(spec_digits_val(s.subrange(0, i)) <= spec_digits_val(s.subrange(0, i)) * 10) by {
            lemma_digits_val_nonneg(s.subrange(0, i));
        }
    } else {
        assert(s.subrange(0, i) =~= s);
    }
}

/// The decimal rendering of a value is made of digits and parses back to
/// that value.
pub proof fn lemma_u64_string_val(n: u64)
    ensures
        spec_u64_string(n).len() > 0,
        all_digits(spec_u64_string(n)),
        spec_digits_val(spec_u64_string(n)) == n,
    decreases n,
{
    if n < 10 {
        let s = spec_u64_string(n);
        assert(s.len() == 1);
        assert(s.drop_last() =~= Seq::<char>::empty());
        assert(spec_digits_val(Seq::<char>::empty()) == 0);
        assert(s.last() == spec_digit_char(n as int));
        assert(spec_digits_val(s) == 0 * 10 + spec_digit_val(spec_digit_char(n as int)));
    } else {
        lemma_u64_string_val(n / 10);
        let s = spec_u64_string(n);
        let p = spec_u64_string(n / 10);
        assert(s == p.push(spec_digit_char((n % 10) as int)));
        assert(s.drop_last() =~= p);
        assert(spec_digit_val(spec_digit_char((n % 10) as int)) == n % 10);
        assert(spec_digits_val(s) == spec_digits_val(p) * 10 + n % 10);
        assert(spec_digits_val(p) == n / 10);
        assert((n / 10) * 10 + n % 10 == n) by {
            assert(n == 10 * (n / 10) + n % 10) by (nonlinear_arith);
        }
    }
}

/// One decimal digit character for a digit value.
pub fn digit_char(d: u8) -> (c: char)
    requires
        d < 10,
    ensures
        c == spec_digit_char(d as int),
{
    match d {
        0 => '0',
        1 => '1',
        2 => '2',
        3 => '3',
        4 => '4',
        5 => '5',
        6 => '6',
        7 => '7',
        8 => '8',
        _ => '9',
    }
}

/// The digit value of a decimal digit character.
pub fn digit_val(c: char) -> (d: u8)
    requires
        is_digit(c),
    ensures
        d == spec_digit_val(c),
        d < 10,
{
    (c as u8) - ('0' as u8)
}

/// Appends the decimal rendering of `n` to `out`.
pub fn push_u64_string(out: &mut Vec<char>, n: u64)
    ensures
        final(out)@ == old(out)@ + spec_u64_string(n),
    decreases n,
{
    if n >= 10 {
        push_u64_string(out, n / 10);
        out.push(digit_char((n % 10) as u8));
        assert(out@ =~= old(out)@ + spec_u64_string(n));
    } else {
        out.push(digit_char(n as u8));
        assert(out@ =~= old(out)@ + spec_u64_string(n));
    }
}

/// Parses a whole character sequence as an unsigned 64-bit integer.
pub fn parse_u64_chars(s: &[char]) -> (r: Option<u64>)
    ensures
        r == spec_parse_u64(s@),
{
    if s.len() == 0 {
        return None;
    }
    let mut acc: u64 = 0;
    let mut i: usize = 0;
    while i < s.len()
        invariant
            0 <= i <= s@.len(),
            all_digits(s@.subrange(0, i as int)),
            acc == spec_digits_val(s@.subrange(0, i as int)),
        decreases s@.len() - i,
    {
        let c = s[i];
        if !('0' <= c && c <= '9') {
            assert(!is_digit(s@[i as int]));
            assert(!all_digits(s@));
            return None;
        }
        let d = digit_val(c);
        proof {
            lemma_digits_val_nonneg(s@.subrange(0, i as int));
        }
        if acc > (u64::MAX - (d as u64)) / 10 {
            proof {
                let p = s@.subrange(0, i + 1);
                assert(p.drop_last() =~= s@.subrange(0, i as int));
                assert(spec_digits_val(p) == acc * 10 + d);
                assert(acc * 10 + d > u64::MAX) by (nonlinear_arith)
                    requires
                        acc > (u64::MAX - (d as u64)) / 10,
                        d < 10,
                ;
                if all_digits(s@) {
                    lemma_digits_val_prefix_le(s@, i + 1);
                    assert(spec_digits_val(s@) > u64::MAX);
                }
            }
            return None;
        }
        proof {
            assert(acc * 10 + d <= u64::MAX) by (nonlinear_arith)
                requires
                    acc <= (u64::MAX - (d as u64)) / 10,
                    d < 10,
            ;
        }
        let ghost prev = s@.subrange(0, i as int);
        acc = acc * 10 + (d as u64);
        i = i + 1;
        proof {
            let p = s@.subrange(0, i as int);
            assert(p.drop_last() =~= prev);
            assert(p.last() == c);
        }
    }
    assert(s@.subrange(0, i as int) =~= s@);
    Some(acc)
}

/// Parses a whole character sequence as a signed 64-bit integer.
pub fn parse_i64_chars(s: &[char]) -> (r: Option<i64>)
    ensures
        r == spec_parse_i64(s@),
{
    if s.len() == 0 {
        return None;
    }
    if s[0] == '-' {
        let rest = slice_suffix(s, 1);
        match parse_u64_chars(rest) {
            Some(v) => {
                proof {
                    if all_digits(rest@) {
                        lemma_digits_val_nonneg(rest@);
                    }
                }
                if v <= 9223372036854775808u64 {
                    // -v fits in i64
                    if v == 9223372036854775808u64 {
                        Some(i64::MIN)
                    } else {
                        Some(-((v) as i64))
                    }
                } else {
                    None
                }
            },
            None => None,
        }
    } else {
        match parse_u64_chars(s) {
            Some(v) => {
                proof {
                    if all_digits(s@) {
                        lemma_digits_val_nonneg(s@);
                    }
                }
                if v <= i64::MAX as u64 {
                    Some(v as i64)
                } else {
                    None
                }
            },
            None => None,
        }
    }
}

/// Relies on `String`'s `FromIterator<char>` impl: collecting characters
/// yields the string of exactly those characters, in order.
#[verifier::external_body]
pub fn chars_to_string(v: Vec<char>) -> (r: String)
    ensures
        r@ == v@,
{
    v.into_iter().collect()
}

/// Relies on `char::from_u32`: a code point converts to a `char` exactly
/// when it is a Unicode scalar value (not a surrogate, at most 0x10FFFF),
/// and the resulting `char` has that code point.
#[verifier::external_body]
pub fn char_from_u32(v: u32) -> (r: Option<char>)
    ensures
        (r is Some) <==> (v < 0xD800 || (0xDFFF < v && v < 0x110000)),
        r matches Some(c) ==> c as u32 == v,
{
    char::from_u32(v)
}

/// The characters of a string, in order, as a vector.
pub fn str_to_chars(s: &str) -> (v: Vec<char>)
    ensures
        v@ == s@,
{
    let n = s.unicode_len();
    let mut v: Vec<char> = Vec::new();
    let mut i: usize = 0;
    while i < n
        invariant
            n == s@.len(),
            0 <= i <= n,
            v@ == s@.subrange(0, i as int),
        decreases n - i,
    {
        let c = s.get_char(i);
        v.push(c);
        i = i + 1;
        proof {
            assert(v@ =~= s@.subrange(0, i as int));
        }
    }
    proof {
        assert(v@ =~= s@);
    }
    v
}

/// Whether a string's characters are exactly those of another.
pub fn string_eq_str(a: &String, b: &str) -> (r: bool)
    ensures
        r == (a@ == b@),
{
    let bs = String::from_str(b);
    *a == bs
}

/// The tail of a slice from an index on.
pub fn slice_suffix<'a>(s: &'a [char], from: usize) -> (r: &'a [char])
    requires
        from <= s@.len(),
    ensures
        r@ == s@.subrange(from as int, s@.len() as int),
{
    vstd::slice::slice_subrange(s, from, s.len())
}

} // verus!
