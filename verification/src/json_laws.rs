//! The wire-value layer's law: rendering a tree and parsing the text back
//! yields the original tree, for every tree. Proved by one induction over
//! the tree, with one leaf lemma per token kind.

use crate::json::{
    is_hex, is_ws, spec_escape, spec_escape_char, spec_hex_char, spec_hex_val, spec_parse_elems,
    spec_parse_json, spec_parse_members, spec_parse_number, spec_parse_string_body,
    spec_parse_value, spec_quoted, spec_render, spec_render_items, spec_render_members,
    spec_skip_ws, spec_digit_run_end, spec_unescape_char, JsonSpec,
};
use crate::text::{is_digit, lemma_u64_string_val, spec_digits_val, spec_u64_string};
use vstd::prelude::*;

verus! {

broadcast use vstd::seq::group_seq_axioms;

/// Skipping whitespace does not move off a non-whitespace character.
proof fn lemma_skip_ws_stays(s: Seq<char>, i: int)
    requires
        0 <= i,
        i >= s.len() || !is_ws(s[i]),
    ensures
        spec_skip_ws(s, i) == i,
{
}

/// A digit run is exactly the digits up to the first non-digit.
proof fn lemma_digit_run_exact(s: Seq<char>, i: int, e: int)
    requires
        0 <= i <= e <= s.len(),
        forall|k: int| i <= k < e ==> is_digit(#[trigger] s[k]),
        e == s.len() || !is_digit(s[e]),
    ensures
        spec_digit_run_end(s, i) == e,
    decreases e - i,
{
    if i < e {
        lemma_digit_run_exact(s, i + 1, e);
    }
}

/// A rendered number, followed by anything but a digit, parses back to its
/// value.
proof fn lemma_parse_number_at(s: Seq<char>, i: int, n: u64)
    requires
        0 <= i,
        i + spec_u64_string(n).len() <= s.len(),
        s.subrange(i, i + spec_u64_string(n).len() as int) == spec_u64_string(n),
        i + spec_u64_string(n).len() == s.len() || !is_digit(
            s[i + spec_u64_string(n).len() as int],
        ),
    ensures
        spec_parse_number(s, i) == Some((n, i + spec_u64_string(n).len() as int)),
{
    let d = spec_u64_string(n);
    let e = i + d.len() as int;
    lemma_u64_string_val(n);
    assert forall|k: int| i <= k < e implies is_digit(#[trigger] s[k]) by {
        assert(s[k] == s.subrange(i, e)[k - i]);
        assert(d[k - i] == s[k]);
    }
    lemma_digit_run_exact(s, i, e);
    assert(s.subrange(i, e) == d);
    assert(spec_digits_val(s.subrange(i, e)) == n);
}

/// A hexadecimal digit character is one, and means its value.
proof fn lemma_hex_char_val(d: int)
    requires
        0 <= d < 16,
    ensures
        is_hex(spec_hex_char(d)),
        spec_hex_val(spec_hex_char(d)) == d,
{
}

/// An escaped string body followed by its closing quote parses back to the
/// original characters.
proof fn lemma_parse_escaped_at(s: Seq<char>, i: int, cs: Seq<char>)
    requires
        0 <= i,
        i + spec_escape(cs).len() + 1 <= s.len(),
        s.subrange(i, i + spec_escape(cs).len() + 1) == spec_escape(cs) + seq!['"'],
    ensures
        spec_parse_string_body(s, i) == Some((cs, i + spec_escape(cs).len() + 1)),
    decreases cs.len(),
{
    let e = spec_escape(cs);
    let j = i + e.len() + 1;
    if cs.len() == 0 {
        assert(e == Seq::<char>::empty());
        assert(s.subrange(i, i + 1)[0] == s[i]);
        assert((e + seq!['"'])[0] == '"');
        assert(s[i] == '"');
    } else {
        let c0 = cs[0];
        let ec = spec_escape_char(c0);
        let tail = cs.skip(1);
        assert(e == ec + spec_escape(tail));
        let a = ec.len() as int;
        assert forall|k: int| 0 <= k < a implies s[i + k] == ec[k] by {
            assert(s.subrange(i, j)[k] == s[i + k]);
            assert((e + seq!['"'])[k] == e[k]);
            assert(e[k] == ec[k]);
        }
        assert(s.subrange(i + a, (i + a) + spec_escape(tail).len() + 1) =~= spec_escape(tail)
            + seq!['"']) by {
            assert forall|k: int|
                0 <= k < spec_escape(tail).len() + 1 implies s.subrange(
                i + a,
                (i + a) + spec_escape(tail).len() + 1,
            )[k] == (spec_escape(tail) + seq!['"'])[k] by {
                assert(s.subrange(i + a, (i + a) + spec_escape(tail).len() + 1)[k] == s[i + a
                    + k]);
                assert(s[i + a + k] == s.subrange(i, j)[a + k]);
                assert((e + seq!['"'])[a + k] == (spec_escape(tail) + seq!['"'])[k]);
            }
        }
        lemma_parse_escaped_at(s, i + a, tail);
        assert(seq![c0] + tail =~= cs);
        if c0 == '"' || c0 == '\\' || c0 == '\n' || c0 == '\r' || c0 == '\t' || c0 == '\u{8}'
            || c0 == '\u{c}' {
            // A two-character escape.
            assert(a == 2);
            assert(s[i] == '\\');
            assert(s[i + 1] == ec[1]);
            assert(spec_unescape_char(ec[1]) == Some(c0));
            assert(s[i + 1] != 'u');
        } else if (c0 as u32) < 0x20 {
            // A six-character code-point escape.
            assert(a == 6);
            assert(s[i] == '\\');
            assert(s[i + 1] == 'u');
            assert(s[i + 2] == '0');
            assert(s[i + 3] == '0');
            let hi = (c0 as u32) / 16;
            let lo = (c0 as u32) % 16;
            assert(s[i + 4] == spec_hex_char(hi as int));
            assert(s[i + 5] == spec_hex_char(lo as int));
            lemma_hex_char_val(hi as int);
            lemma_hex_char_val(lo as int);
            assert(is_hex('0') && spec_hex_val('0') == 0);
            let v = ((spec_hex_val(s[i + 2]) * 16 + spec_hex_val(s[i + 3])) * 16 + spec_hex_val(
                s[i + 4],
            )) * 16 + spec_hex_val(s[i + 5]);
            assert(v == hi * 16 + lo);
            assert(v == c0 as u32);
            assert(v < 0xD800);
            vstd::utf8::char_u32_cast(c0, c0 as u32);
            assert(((v as u32) as char) == c0);
        } else {
            // The character stands for itself.
            assert(a == 1);
            assert(s[i] == c0);
            assert(s[i] != '"' && s[i] != '\\');
        }
    }
}

/// A rendered value is never empty, and its first character is neither
/// whitespace nor one of the separators that close a surrounding list.
proof fn lemma_render_first_char(j: JsonSpec)
    ensures
        spec_render(j).len() > 0,
        !is_ws(spec_render(j)[0]),
        spec_render(j)[0] != ']',
        spec_render(j)[0] != '}',
        spec_render(j)[0] != ',',
        spec_render(j)[0] != ':',
{
    match j {
        JsonSpec::Num(n) => {
            lemma_u64_string_val(n);
            assert(is_digit(spec_render(j)[0]));
        },
        JsonSpec::Arr(xs) => {
            assert(spec_render(j)[0] == '[');
        },
        JsonSpec::Obj(ps) => {
            assert(spec_render(j)[0] == '{');
        },
        JsonSpec::Str(cs) => {
            assert(spec_render(j)[0] == '"');
        },
        JsonSpec::Null => {
            assert(spec_render(j)[0] == 'n');
        },
        JsonSpec::Bool(b) => {
            if b {
                assert(spec_render(j)[0] == 't');
            } else {
                assert(spec_render(j)[0] == 'f');
            }
        },
    }
}

/// A region known to hold a concatenation splits into its two parts.
proof fn lemma_region_shift(s: Seq<char>, i: int, a: Seq<char>, b: Seq<char>)
    requires
        0 <= i,
        i + a.len() + b.len() <= s.len(),
        s.subrange(i, i + a.len() + b.len()) == a + b,
    ensures
        s.subrange(i, i + a.len() as int) == a,
        s.subrange(i + a.len() as int, i + a.len() + b.len()) == b,
{
    let full = s.subrange(i, i + a.len() + b.len());
    assert(s.subrange(i, i + a.len() as int) =~= a) by {
        assert forall|k: int| 0 <= k < a.len() implies s.subrange(i, i + a.len() as int)[k]
            == a[k] by {
            assert(s.subrange(i, i + a.len() as int)[k] == s[i + k]);
            assert(full[k] == s[i + k]);
            assert((a + b)[k] == a[k]);
        }
    }
    assert(s.subrange(i + a.len() as int, i + a.len() + b.len()) =~= b) by {
        assert forall|k: int|
            0 <= k < b.len() implies s.subrange(i + a.len() as int, i + a.len() + b.len())[k]
            == b[k] by {
            assert(s.subrange(i + a.len() as int, i + a.len() + b.len())[k] == s[i + a.len()
                + k]);
            assert(full[a.len() + k] == s[i + a.len() + k]);
            assert((a + b)[a.len() + k] == b[k]);
        }
    }
}

/// A rendered value embedded in a larger text parses back to exactly that
/// value, ending just after it. A number must not be followed by another
/// digit, which would extend it.
proof fn lemma_parse_render_at(j: JsonSpec, s: Seq<char>, i: int)
    requires
        0 <= i,
        i + spec_render(j).len() <= s.len(),
        s.subrange(i, i + spec_render(j).len() as int) == spec_render(j),
        j is Num ==> (i + spec_render(j).len() == s.len() || !is_digit(
            s[i + spec_render(j).len() as int],
        )),
    ensures
        spec_parse_value(s, i) == Some((j, i + spec_render(j).len() as int)),
    decreases j, 0int,
{
    let r = spec_render(j);
    let endp = i + r.len() as int;
    lemma_render_first_char(j);
    assert forall|k: int| 0 <= k < r.len() implies s[i + k] == r[k] by {
        assert(s.subrange(i, endp)[k] == s[i + k]);
    }
    lemma_skip_ws_stays(s, i);
    match j {
        JsonSpec::Null => {
            assert(s.subrange(i, i + 4) =~= r);
        },
        JsonSpec::Bool(b) => {
            if b {
                assert(s.subrange(i, i + 4) =~= r);
            } else {
                assert(s.subrange(i, i + 5) =~= r);
                assert(s[i] == 'f');
                assert(s[i] != 'n' && s[i] != 't');
            }
        },
        JsonSpec::Num(n) => {
            lemma_u64_string_val(n);
            assert(is_digit(s[i]));
            assert(s[i] != 'n' && s[i] != 't' && s[i] != 'f' && s[i] != '"');
            assert(s.subrange(i, i + spec_u64_string(n).len() as int) =~= spec_u64_string(n));
            lemma_parse_number_at(s, i, n);
        },
        JsonSpec::Str(cs) => {
            assert(s[i] == '"');
            assert(s[i] != 'n' && s[i] != 't' && s[i] != 'f' && !is_digit(s[i]));
            let e = spec_escape(cs);
            assert(r == seq!['"'] + (e + seq!['"'])) by {
                assert(spec_quoted(cs) =~= seq!['"'] + (e + seq!['"']));
            }
            lemma_region_shift(s, i, seq!['"'], e + seq!['"']);
            lemma_parse_escaped_at(s, i + 1, cs);
        },
        JsonSpec::Arr(xs) => {
            assert(s[i] == '[');
            assert(s[i] != 'n' && s[i] != 't' && s[i] != 'f' && s[i] != '"' && !is_digit(s[i]));
            let items = spec_render_items(xs, 0);
            assert(r == seq!['['] + (items + seq![']'])) by {
                assert(r =~= seq!['['] + (items + seq![']']));
            }
            lemma_region_shift(s, i, seq!['['], items + seq![']']);
            if xs.len() == 0 {
                assert(items == Seq::<char>::empty());
                assert(items + seq![']'] =~= seq![']']);
                assert(s[i + 1] == ']') by {
                    assert(s.subrange(i + 1, i + 2)[0] == s[i + 1]);
                }
                lemma_skip_ws_stays(s, i + 1);
                assert(xs =~= Seq::<JsonSpec>::empty());
            } else {
                assert(items[0] == spec_render(xs[0])[0]) by {
                    if xs.len() == 1 {
                    } else {
                        assert(items == spec_render(xs[0]) + seq![','] + spec_render_items(
                            xs,
                            1,
                        ));
                        lemma_render_first_char(xs[0]);
                        assert((spec_render(xs[0]) + seq![','] + spec_render_items(xs, 1))[0]
                            == spec_render(xs[0])[0]);
                    }
                }
                lemma_render_first_char(xs[0]);
                assert(s[i + 1] == items[0]) by {
                    assert(s.subrange(i + 1, i + 1 + items.len() + 1)[0] == s[i + 1]);
                    assert((items + seq![']'])[0] == items[0]);
                }
                lemma_skip_ws_stays(s, i + 1);
                assert(s[i + 1] != ']');
                lemma_parse_items_at(xs, 0, s, i + 1);
                assert(xs.subrange(0, xs.len() as int) =~= xs);
            }
        },
        JsonSpec::Obj(ps) => {
            assert(s[i] == '{');
            assert(s[i] != 'n' && s[i] != 't' && s[i] != 'f' && s[i] != '"' && !is_digit(s[i])
                && s[i] != '[');
            let mems = spec_render_members(ps, 0);
            assert(r == seq!['{'] + (mems + seq!['}'])) by {
                assert(r =~= seq!['{'] + (mems + seq!['}']));
            }
            lemma_region_shift(s, i, seq!['{'], mems + seq!['}']);
            if ps.len() == 0 {
                assert(mems == Seq::<char>::empty());
                assert(mems + seq!['}'] =~= seq!['}']);
                assert(s[i + 1] == '}') by {
                    assert(s.subrange(i + 1, i + 2)[0] == s[i + 1]);
                }
                lemma_skip_ws_stays(s, i + 1);
                assert(ps =~= Seq::<(Seq<char>, JsonSpec)>::empty());
            } else {
                assert(mems[0] == '"') by {
                    let head = spec_quoted(ps[0].0) + seq![':'] + spec_render(ps[0].1);
                    if ps.len() == 1 {
                        assert(mems == head);
                    } else {
                        assert(mems == head + seq![','] + spec_render_members(ps, 1));
                    }
                    assert(head[0] == spec_quoted(ps[0].0)[0]);
                    assert(spec_quoted(ps[0].0)[0] == '"');
                }
                assert(s[i + 1] == mems[0]) by {
                    assert(s.subrange(i + 1, i + 1 + mems.len() + 1)[0] == s[i + 1]);
                    assert((mems + seq!['}'])[0] == mems[0]);
                }
                lemma_skip_ws_stays(s, i + 1);
                assert(s[i + 1] != '}');
                lemma_parse_members_at(ps, 0, s, i + 1);
                assert(ps.subrange(0, ps.len() as int) =~= ps);
            }
        },
    }
}

/// Rendered array elements from position `k` on, followed by the closing
/// bracket, parse back to exactly those elements.
proof fn lemma_parse_items_at(xs: Seq<JsonSpec>, k: int, s: Seq<char>, i: int)
    requires
        0 <= k < xs.len(),
        0 <= i,
        i + spec_render_items(xs, k).len() + 1 <= s.len(),
        s.subrange(i, i + spec_render_items(xs, k).len() + 1) == spec_render_items(xs, k)
            + seq![']'],
    ensures
        spec_parse_elems(s, i) == Some(
            (xs.subrange(k, xs.len() as int), i + spec_render_items(xs, k).len() + 1),
        ),
    decreases xs, 1int, xs.len() - k,
{
    let items = spec_render_items(xs, k);
    let rk = spec_render(xs[k]);
    lemma_render_first_char(xs[k]);
    let j = i + rk.len() as int;
    if k == xs.len() - 1 {
        assert(items == rk);
        lemma_region_shift(s, i, rk, seq![']']);
        assert(s[j] == ']') by {
            assert(s.subrange(j, j + 1)[0] == s[j]);
        }
        lemma_parse_render_at(xs[k], s, i);
        lemma_skip_ws_stays(s, j);
        assert(xs.subrange(k, xs.len() as int) =~= seq![xs[k]]);
    } else {
        let rest = spec_render_items(xs, k + 1);
        assert(items == rk + seq![','] + rest);
        assert(items + seq![']'] == rk + (seq![','] + (rest + seq![']'])));
        assert(items + seq![']'] =~= rk + (seq![','] + (rest + seq![']'])));
        lemma_region_shift(s, i, rk, seq![','] + (rest + seq![']']));
        lemma_region_shift(s, j, seq![','], rest + seq![']']);
        assert(s[j] == ',') by {
            assert(s.subrange(j, j + 1)[0] == s[j]);
        }
        lemma_parse_render_at(xs[k], s, i);
        lemma_skip_ws_stays(s, j);
        lemma_parse_items_at(xs, k + 1, s, j + 1);
        assert(seq![xs[k]] + xs.subrange(k + 1, xs.len() as int) =~= xs.subrange(
            k,
            xs.len() as int,
        ));
    }
}

/// Rendered object members from position `k` on, followed by the closing
/// brace, parse back to exactly those members.
proof fn lemma_parse_members_at(ps: Seq<(Seq<char>, JsonSpec)>, k: int, s: Seq<char>, i: int)
    requires
        0 <= k < ps.len(),
        0 <= i,
        i + spec_render_members(ps, k).len() + 1 <= s.len(),
        s.subrange(i, i + spec_render_members(ps, k).len() + 1) == spec_render_members(ps, k)
            + seq!['}'],
    ensures
        spec_parse_members(s, i) == Some(
            (ps.subrange(k, ps.len() as int), i + spec_render_members(ps, k).len() + 1),
        ),
    decreases ps, 1int, ps.len() - k,
{
    let mems = spec_render_members(ps, k);
    let key = ps[k].0;
    let v = ps[k].1;
    let qk = spec_quoted(key);
    let rv = spec_render(v);
    let head = qk + seq![':'] + rv;
    let jk = i + qk.len() as int;
    let jv = jk + 1 + rv.len() as int;
    lemma_render_first_char(v);
    if k == ps.len() - 1 {
        assert(mems == head);
        assert(mems + seq!['}'] =~= qk + (seq![':'] + (rv + seq!['}'])));
        lemma_region_shift(s, i, qk, seq![':'] + (rv + seq!['}']));
        lemma_region_shift(s, jk, seq![':'], rv + seq!['}']);
        lemma_region_shift(s, jk + 1, rv, seq!['}']);
        assert(s[i] == '"') by {
            assert(s.subrange(i, jk)[0] == s[i]);
            assert(qk[0] == '"');
        }
        lemma_skip_ws_stays(s, i);
        assert(qk =~= seq!['"'] + (spec_escape(key) + seq!['"']));
        lemma_region_shift(s, i, seq!['"'], spec_escape(key) + seq!['"']);
        lemma_parse_escaped_at(s, i + 1, key);
        assert(s[jk] == ':') by {
            assert(s.subrange(jk, jk + 1)[0] == s[jk]);
        }
        lemma_skip_ws_stays(s, jk);
        assert(s[jv] == '}') by {
            assert(s.subrange(jv, jv + 1)[0] == s[jv]);
        }
        lemma_parse_render_at(v, s, jk + 1);
        lemma_skip_ws_stays(s, jv);
        assert(ps.subrange(k, ps.len() as int) =~= seq![(key, v)]);
    } else {
        let rest = spec_render_members(ps, k + 1);
        assert(mems == head + seq![','] + rest);
        assert(mems + seq!['}'] =~= qk + (seq![':'] + (rv + (seq![','] + (rest + seq!['}'])))));
        lemma_region_shift(s, i, qk, seq![':'] + (rv + (seq![','] + (rest + seq!['}']))));
        lemma_region_shift(s, jk, seq![':'], rv + (seq![','] + (rest + seq!['}'])));
        lemma_region_shift(s, jk + 1, rv, seq![','] + (rest + seq!['}']));
        lemma_region_shift(s, jv, seq![','], rest + seq!['}']);
        assert(s[i] == '"') by {
            assert(s.subrange(i, jk)[0] == s[i]);
            assert(qk[0] == '"');
        }
        lemma_skip_ws_stays(s, i);
        assert(qk =~= seq!['"'] + (spec_escape(key) + seq!['"']));
        lemma_region_shift(s, i, seq!['"'], spec_escape(key) + seq!['"']);
        lemma_parse_escaped_at(s, i + 1, key);
        assert(s[jk] == ':') by {
            assert(s.subrange(jk, jk + 1)[0] == s[jk]);
        }
        lemma_skip_ws_stays(s, jk);
        assert(s[jv] == ',') by {
            assert(s.subrange(jv, jv + 1)[0] == s[jv]);
        }
        lemma_parse_render_at(v, s, jk + 1);
        lemma_skip_ws_stays(s, jv);
        lemma_parse_members_at(ps, k + 1, s, jv + 1);
        assert(seq![(key, v)] + ps.subrange(k + 1, ps.len() as int) =~= ps.subrange(
            k,
            ps.len() as int,
        ));
    }
}

/// Law: rendering any wire value and parsing the text back yields exactly
/// the original value.
pub proof fn lemma_render_parse_round_trip(j: JsonSpec)
    ensures
        spec_parse_json(spec_render(j)) == Some(j),
{
    let s = spec_render(j);
    lemma_render_first_char(j);
    assert(s.subrange(0, s.len() as int) =~= s);
    lemma_parse_render_at(j, s, 0);
    lemma_skip_ws_stays(s, s.len() as int);
}

} // verus!
