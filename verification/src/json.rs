//! The JSON subset that the external CA tool's protocol uses, defined over
//! byte sequences.
//!
//! Requests go to the tool as compact JSON objects built here byte by byte;
//! responses come back as flat JSON objects whose values are all strings
//! (certificate, key and request material in PEM). The escaping rules are the
//! usual ones: `\"`, `\\`, the short control escapes, and `\u00xx` for the
//! remaining control bytes. The parser additionally accepts `\/` and
//! `\uXXXX` escapes for code points below 128; string content bytes outside
//! the escapes pass through unchanged.

use vstd::prelude::*;
use vstd::string::StringExecFns;

use crate::error::{KawsError, KawsErrorKind};

verus! {

/// A hexadecimal digit, lower case.
pub open spec fn hex_digit(v: u8) -> u8
    recommends
        v < 16,
{
    if v < 10 {
        (48 + v) as u8
    } else {
        (87 + v) as u8
    }
}

/// How one byte of string content is written: itself, a two-byte escape, or
/// a `\u00xx` escape for the control bytes without a short form.
pub open spec fn escape_byte(b: u8) -> Seq<u8> {
    if b == 34 {
        seq![92u8, 34u8]
    } else if b == 92 {
        seq![92u8, 92u8]
    } else if b == 8 {
        seq![92u8, 98u8]
    } else if b == 9 {
        seq![92u8, 116u8]
    } else if b == 10 {
        seq![92u8, 110u8]
    } else if b == 12 {
        seq![92u8, 102u8]
    } else if b == 13 {
        seq![92u8, 114u8]
    } else if b < 32 {
        seq![92u8, 117u8, 48u8, 48u8, hex_digit(b / 16), hex_digit(b % 16)]
    } else {
        seq![b]
    }
}

/// String content, escaped.
pub open spec fn json_escape(s: Seq<u8>) -> Seq<u8>
    decreases s.len(),
{
    if s.len() == 0 {
        Seq::empty()
    } else {
        escape_byte(s[0]) + json_escape(s.skip(1))
    }
}

/// A JSON string: escaped content between quotes.
pub open spec fn json_string(s: Seq<u8>) -> Seq<u8> {
    seq![34u8] + json_escape(s) + seq![34u8]
}

/// Escaping distributes over concatenation.
pub proof fn lemma_escape_append(s: Seq<u8>, t: Seq<u8>)
    ensures
        json_escape(s + t) == json_escape(s) + json_escape(t),
    decreases s.len(),
{
    if s.len() == 0 {
        assert(s + t =~= t);
        assert(json_escape(s) + json_escape(t) =~= json_escape(t));
    } else {
        let u = s + t;
        assert(u[0] == s[0]);
        assert(u.skip(1) =~= s.skip(1) + t);
        lemma_escape_append(s.skip(1), t);
        assert(json_escape(s + t) =~= json_escape(s) + json_escape(t));
    }
}

fn hex_digit_of(v: u8) -> (c: u8)
    requires
        v < 16,
    ensures
        c == hex_digit(v),
{
    if v < 10 {
        48 + v
    } else {
        87 + v
    }
}

/// Appends one JSON string (quotes and escaping included) to `out`.
pub fn write_json_string(out: &mut Vec<u8>, s: &[u8])
    ensures
        final(out)@ == old(out)@ + json_string(s@),
{
    let ghost base = old(out)@;
    out.push(34);
    let mut i: usize = 0;
    while i < s.len()
        invariant
            i <= s@.len(),
            out@ == base + seq![34u8] + json_escape(s@.take(i as int)),
        decreases s@.len() - i,
    {
        let ghost done = s@.take(i as int);
        let b = s[i];
        if b == 34 {
            out.push(92);
            out.push(34);
        } else if b == 92 {
            out.push(92);
            out.push(92);
        } else if b == 8 {
            out.push(92);
            out.push(98);
        } else if b == 9 {
            out.push(92);
            out.push(116);
        } else if b == 10 {
            out.push(92);
            out.push(110);
        } else if b == 12 {
            out.push(92);
            out.push(102);
        } else if b == 13 {
            out.push(92);
            out.push(114);
        } else if b < 32 {
            out.push(92);
            out.push(117);
            out.push(48);
            out.push(48);
            out.push(hex_digit_of(b / 16));
            out.push(hex_digit_of(b % 16));
        } else {
            out.push(b);
        }
        proof {
            assert(s@.take(i + 1) =~= done + seq![b]);
            lemma_escape_append(done, seq![b]);
            assert(json_escape(seq![b]) =~= escape_byte(b)) by {
                assert(seq![b].skip(1) =~= Seq::<u8>::empty());
                assert(json_escape(Seq::<u8>::empty()) =~= Seq::<u8>::empty());
                assert(seq![b][0] == b);
                assert(json_escape(seq![b]) == escape_byte(b) + json_escape(seq![b].skip(1)));
            }
            assert(out@ =~= base + seq![34u8] + (json_escape(done) + escape_byte(b)));
        }
        i = i + 1;
    }
    out.push(34);
    proof {
        assert(s@.take(s@.len() as int) =~= s@);
        assert(out@ =~= base + json_string(s@));
    }
}

/// JSON insignificant whitespace.
pub open spec fn is_ws(b: u8) -> bool {
    b == 32 || b == 9 || b == 10 || b == 13
}

/// The first position at or after `i` that holds no whitespace.
pub open spec fn spec_skip_ws(s: Seq<u8>, i: int) -> int
    decreases s.len() - i,
{
    if i < 0 || i >= s.len() {
        i
    } else if is_ws(s[i]) {
        spec_skip_ws(s, i + 1)
    } else {
        i
    }
}

pub proof fn lemma_skip_ws_bounds(s: Seq<u8>, i: int)
    ensures
        0 <= i <= s.len() ==> i <= spec_skip_ws(s, i) <= s.len(),
    decreases s.len() - i,
{
    if 0 <= i < s.len() && is_ws(s[i]) {
        lemma_skip_ws_bounds(s, i + 1);
    }
}

/// The value of a hexadecimal digit, either case, or `None`.
pub open spec fn spec_hex_val(b: u8) -> Option<u8> {
    if 48 <= b <= 57 {
        Some((b - 48) as u8)
    } else if 97 <= b <= 102 {
        Some((b - 87) as u8)
    } else if 65 <= b <= 70 {
        Some((b - 55) as u8)
    } else {
        None
    }
}

/// One decoded content byte put in front of a partial string-body parse.
pub open spec fn prepend_byte(x: u8, r: Option<(Seq<u8>, int)>) -> Option<(Seq<u8>, int)> {
    match r {
        Some((t, n)) => Some((seq![x] + t, n)),
        None => None,
    }
}

/// Parses string content from position `i` (just after the opening quote) up
/// to and over the closing quote: the decoded content and the position after
/// the closing quote. Escapes `\uXXXX` are accepted for code points below
/// 128; unescaped control bytes are not.
pub open spec fn spec_parse_string_body(s: Seq<u8>, i: int) -> Option<(Seq<u8>, int)>
    decreases s.len() - i,
{
    if i < 0 || i >= s.len() {
        None
    } else if s[i] == 34 {
        Some((Seq::empty(), i + 1))
    } else if s[i] == 92 {
        if i + 1 >= s.len() {
            None
        } else {
            let e = s[i + 1];
            if e == 34 {
                prepend_byte(34, spec_parse_string_body(s, i + 2))
            } else if e == 92 {
                prepend_byte(92, spec_parse_string_body(s, i + 2))
            } else if e == 47 {
                prepend_byte(47, spec_parse_string_body(s, i + 2))
            } else if e == 98 {
                prepend_byte(8, spec_parse_string_body(s, i + 2))
            } else if e == 102 {
                prepend_byte(12, spec_parse_string_body(s, i + 2))
            } else if e == 110 {
                prepend_byte(10, spec_parse_string_body(s, i + 2))
            } else if e == 114 {
                prepend_byte(13, spec_parse_string_body(s, i + 2))
            } else if e == 116 {
                prepend_byte(9, spec_parse_string_body(s, i + 2))
            } else if e == 117 {
                if i + 5 >= s.len() {
                    None
                } else {
                    match (spec_hex_val(s[i + 2]), spec_hex_val(s[i + 3]), spec_hex_val(s[i + 4]), spec_hex_val(s[i + 5])) {
                        (Some(h0), Some(h1), Some(h2), Some(h3)) => if h0 == 0 && h1 == 0 && h2
                            < 8 {
                            prepend_byte((h2 * 16 + h3) as u8, spec_parse_string_body(s, i + 6))
                        } else {
                            None
                        },
                        _ => None,
                    }
                }
            } else {
                None
            }
        }
    } else if s[i] < 32 {
        None
    } else {
        prepend_byte(s[i], spec_parse_string_body(s, i + 1))
    }
}

/// Parses a JSON string starting at the opening quote at `i`.
pub open spec fn spec_parse_string(s: Seq<u8>, i: int) -> Option<(Seq<u8>, int)> {
    if 0 <= i < s.len() && s[i] == 34 {
        spec_parse_string_body(s, i + 1)
    } else {
        None
    }
}

pub proof fn lemma_string_body_bounds(s: Seq<u8>, i: int)
    ensures
        spec_parse_string_body(s, i) matches Some((t, n)) ==> i + 1 <= n <= s.len(),
    decreases s.len() - i,
{
    if 0 <= i < s.len() {
        lemma_string_body_bounds(s, i + 1);
        if i + 2 <= s.len() {
            lemma_string_body_bounds(s, i + 2);
        }
        if i + 6 <= s.len() {
            lemma_string_body_bounds(s, i + 6);
        }
    }
}

pub proof fn lemma_parse_string_bounds(s: Seq<u8>, i: int)
    ensures
        spec_parse_string(s, i) matches Some((t, n)) ==> i + 2 <= n <= s.len(),
{
    if 0 <= i < s.len() && s[i] == 34 {
        lemma_string_body_bounds(s, i + 1);
    }
}

/// Parses the members of an object from position `i` (just after `{` or a
/// separating comma) up to and over the closing `}`: keys and values must be
/// strings.
pub open spec fn spec_parse_members(s: Seq<u8>, i: int) -> Option<
    (Seq<(Seq<u8>, Seq<u8>)>, int),
>
    decreases s.len() - i
        via spec_parse_members_decreases
{
    let j = spec_skip_ws(s, i);
    match spec_parse_string(s, j) {
        Some((k, a)) => {
            let b = spec_skip_ws(s, a);
            if b < s.len() && s[b] == 58 {
                let c = spec_skip_ws(s, b + 1);
                match spec_parse_string(s, c) {
                    Some((v, d)) => {
                        let e = spec_skip_ws(s, d);
                        if e < s.len() && s[e] == 44 {
                            match spec_parse_members(s, e + 1) {
                                Some((rest, f)) => Some((seq![(k, v)] + rest, f)),
                                None => None,
                            }
                        } else if e < s.len() && s[e] == 125 {
                            Some((seq![(k, v)], e + 1))
                        } else {
                            None
                        }
                    },
                    None => None,
                }
            } else {
                None
            }
        },
        None => None,
    }
}

#[via_fn]
proof fn spec_parse_members_decreases(s: Seq<u8>, i: int) {
    lemma_skip_ws_bounds(s, i);
    let j = spec_skip_ws(s, i);
    lemma_parse_string_bounds(s, j);
    match spec_parse_string(s, j) {
        Some((k, a)) => {
            lemma_skip_ws_bounds(s, a);
            let b = spec_skip_ws(s, a);
            lemma_skip_ws_bounds(s, b + 1);
            let c = spec_skip_ws(s, b + 1);
            lemma_parse_string_bounds(s, c);
            match spec_parse_string(s, c) {
                Some((v, d)) => {
                    lemma_skip_ws_bounds(s, d);
                },
                None => {},
            }
        },
        None => {},
    }
}

/// Parses a whole byte sequence as one flat object of string members,
/// tolerating whitespace around the tokens; nothing may follow the object.
pub open spec fn spec_parse_flat_object(s: Seq<u8>) -> Option<Seq<(Seq<u8>, Seq<u8>)>> {
    let i = spec_skip_ws(s, 0);
    if i < s.len() && s[i] == 123 {
        let j = spec_skip_ws(s, i + 1);
        if j < s.len() && s[j] == 125 {
            if spec_skip_ws(s, j + 1) == s.len() {
                Some(Seq::empty())
            } else {
                None
            }
        } else {
            match spec_parse_members(s, i + 1) {
                Some((ps, n)) => if spec_skip_ws(s, n) == s.len() {
                    Some(ps)
                } else {
                    None
                },
                None => None,
            }
        }
    } else {
        None
    }
}

/// The value under the first occurrence of a key.
pub open spec fn spec_object_get(ps: Seq<(Seq<u8>, Seq<u8>)>, key: Seq<u8>) -> Option<Seq<u8>>
    decreases ps.len(),
{
    if ps.len() == 0 {
        None
    } else if ps[0].0 == key {
        Some(ps[0].1)
    } else {
        spec_object_get(ps.skip(1), key)
    }
}

proof fn lemma_hex_val_digit(v: u8)
    requires
        v < 16,
    ensures
        spec_hex_val(hex_digit(v)) == Some(v),
{
}

proof fn lemma_escaped_body_parses_back(w: Seq<u8>, i: int, s: Seq<u8>)
    requires
        0 <= i,
        i + json_escape(s).len() as int + 1 <= w.len(),
        w.subrange(i, i + json_escape(s).len() as int + 1) == json_escape(s).push(34u8),
    ensures
        spec_parse_string_body(w, i) == Some((s, i + json_escape(s).len() as int + 1)),
    decreases s.len(),
{
    let esc = json_escape(s);
    let piece = w.subrange(i, i + esc.len() as int + 1);
    if s.len() == 0 {
        assert(w[i] == piece[0]);
        assert(w[i] == 34);
    } else {
        let b = s[0];
        let eb = escape_byte(b);
        let rest = json_escape(s.skip(1));
        assert(esc == eb + rest);
        assert(forall|k: int| 0 <= k < eb.len() ==> w[i + k] == #[trigger] eb[k]) by {
            assert(forall|k: int|
                0 <= k < eb.len() ==> w[i + k] == piece[k] && piece[k] == #[trigger] eb[k]);
        }
        let next = i + eb.len() as int;
        assert(w.subrange(next, next + rest.len() as int + 1) == rest.push(34u8)) by {
            let shifted = w.subrange(next, next + rest.len() as int + 1);
            assert forall|k: int| 0 <= k < rest.len() + 1 implies shifted[k] == rest.push(
                34u8,
            )[k] by {
                assert(shifted[k] == w[next + k]);
                assert(w[next + k] == piece[eb.len() + k]);
                assert(piece[eb.len() + k] == rest.push(34u8)[k]);
            }
            assert(shifted =~= rest.push(34u8));
        }
        lemma_escaped_body_parses_back(w, next, s.skip(1));
        assert(seq![b] + s.skip(1) =~= s);
        if b == 34 || b == 92 || b == 8 || b == 9 || b == 10 || b == 12 || b == 13 {
            assert(spec_parse_string_body(w, i) == prepend_byte(
                b,
                spec_parse_string_body(w, i + 2),
            ));
        } else if b < 32 {
            lemma_hex_val_digit(b / 16);
            lemma_hex_val_digit(b % 16);
            assert(w[i + 4] == hex_digit(b / 16) && w[i + 5] == hex_digit(b % 16));
            assert(spec_parse_string_body(w, i) == prepend_byte(
                ((b / 16) * 16 + b % 16) as u8,
                spec_parse_string_body(w, i + 6),
            ));
            assert(((b / 16) * 16 + b % 16) as u8 == b);
        } else {
            assert(spec_parse_string_body(w, i) == prepend_byte(
                b,
                spec_parse_string_body(w, i + 1),
            ));
        }
    }
}

/// The writer and the parser agree: a written JSON string, whatever follows
/// it, parses back to exactly the content it was written from, ending right
/// after its closing quote.
pub proof fn lemma_json_string_parses_back(s: Seq<u8>, u: Seq<u8>)
    ensures
        spec_parse_string(json_string(s) + u, 0) == Some((s, json_string(s).len() as int)),
{
    let w = json_string(s) + u;
    assert(w[0] == 34);
    assert(w.subrange(1, 1 + json_escape(s).len() as int + 1) == json_escape(s).push(34u8)) by {
        assert(w.subrange(1, 1 + json_escape(s).len() as int + 1) =~= json_escape(s).push(34u8));
    }
    lemma_escaped_body_parses_back(w, 1, s);
}

fn skip_ws_at(s: &[u8], i: usize) -> (r: usize)
    requires
        i <= s@.len(),
    ensures
        r as int == spec_skip_ws(s@, i as int),
        i <= r <= s@.len(),
{
    let len: usize = s.len();
    let mut r: usize = i;
    while r < len && (s[r] == 32 || s[r] == 9 || s[r] == 10 || s[r] == 13)
        invariant
            i <= r <= len,
            len == s@.len(),
            spec_skip_ws(s@, i as int) == spec_skip_ws(s@, r as int),
        decreases len - r,
    {
        r = r + 1;
    }
    r
}

fn hex_val_of(b: u8) -> (v: Option<u8>)
    ensures
        v == spec_hex_val(b),
{
    if 48 <= b && b <= 57 {
        Some(b - 48)
    } else if 97 <= b && b <= 102 {
        Some(b - 87)
    } else if 65 <= b && b <= 70 {
        Some(b - 55)
    } else {
        None
    }
}

fn parse_string_body_at(s: &[u8], i: usize, content: &mut Vec<u8>) -> (r: Option<usize>)
    requires
        i <= s@.len(),
    ensures
        match r {
            Some(n) => {
                &&& spec_parse_string_body(s@, i as int) matches Some((t, m)) && final(content)@
                    == old(content)@ + t && m == n as int
                &&& i < n <= s@.len()
            },
            None => spec_parse_string_body(s@, i as int) is None,
        },
    decreases s@.len() - i,
{
    let len: usize = s.len();
    if i >= len {
        return None;
    }
    let b = s[i];
    if b == 34 {
        proof {
            assert(old(content)@ + Seq::<u8>::empty() =~= old(content)@);
        }
        return Some(i + 1);
    }
    if b == 92 {
        if i + 1 >= len {
            return None;
        }
        let e = s[i + 1];
        let decoded: Option<(u8, usize)> = if e == 34 {
            Some((34, i + 2))
        } else if e == 92 {
            Some((92, i + 2))
        } else if e == 47 {
            Some((47, i + 2))
        } else if e == 98 {
            Some((8, i + 2))
        } else if e == 102 {
            Some((12, i + 2))
        } else if e == 110 {
            Some((10, i + 2))
        } else if e == 114 {
            Some((13, i + 2))
        } else if e == 116 {
            Some((9, i + 2))
        } else if e == 117 {
            if len - i <= 5 {
                None
            } else {
                match (hex_val_of(s[i + 2]), hex_val_of(s[i + 3]), hex_val_of(s[i + 4]), hex_val_of(
                    s[i + 5],
                )) {
                    (Some(h0), Some(h1), Some(h2), Some(h3)) => {
                        if h0 == 0 && h1 == 0 && h2 < 8 {
                            Some((h2 * 16 + h3, i + 6))
                        } else {
                            None
                        }
                    },
                    _ => None,
                }
            }
        } else {
            None
        };
        match decoded {
            Some((x, next)) => {
                let ghost pre = content@;
                content.push(x);
                let r = parse_string_body_at(s, next, content);
                proof {
                    if r is Some {
                        let (t, m) = spec_parse_string_body(s@, next as int).unwrap();
                        assert((pre + seq![x]) + t =~= pre + (seq![x] + t));
                    }
                }
                match r {
                    Some(n) => Some(n),
                    None => None,
                }
            },
            None => None,
        }
    } else if b < 32 {
        None
    } else {
        let ghost pre = content@;
        content.push(b);
        let r = parse_string_body_at(s, i + 1, content);
        proof {
            if r is Some {
                let (t, m) = spec_parse_string_body(s@, i + 1).unwrap();
                assert((pre + seq![b]) + t =~= pre + (seq![b] + t));
            }
        }
        match r {
            Some(n) => Some(n),
            None => None,
        }
    }
}

fn parse_string_at(s: &[u8], i: usize) -> (r: Option<(Vec<u8>, usize)>)
    requires
        i <= s@.len(),
    ensures
        match r {
            Some((t, n)) => {
                &&& spec_parse_string(s@, i as int) == Some((t@, n as int))
                &&& i + 2 <= n <= s@.len()
            },
            None => spec_parse_string(s@, i as int) is None,
        },
{
    let len: usize = s.len();
    if i >= len || s[i] != 34 {
        return None;
    }
    let mut content: Vec<u8> = Vec::new();
    match parse_string_body_at(s, i + 1, &mut content) {
        Some(n) => {
            proof {
                assert(Seq::<u8>::empty() + spec_parse_string_body(s@, i + 1).unwrap().0
                    =~= spec_parse_string_body(s@, i + 1).unwrap().0);
            }
            Some((content, n))
        },
        None => None,
    }
}

fn parse_members_at(s: &[u8], i: usize, pairs: &mut Vec<(Vec<u8>, Vec<u8>)>) -> (r: Option<usize>)
    requires
        i <= s@.len(),
    ensures
        match r {
            Some(n) => {
                &&& spec_parse_members(s@, i as int) matches Some((ps, m)) && final(pairs).deep_view()
                    == old(pairs).deep_view() + ps && m == n as int
                &&& i < n <= s@.len()
            },
            None => spec_parse_members(s@, i as int) is None,
        },
    decreases s@.len() - i,
{
    let len: usize = s.len();
    let j = skip_ws_at(s, i);
    let (key, a) = match parse_string_at(s, j) {
        Some(kv) => kv,
        None => {
            return None;
        },
    };
    let b = skip_ws_at(s, a);
    if !(b < len && s[b] == 58) {
        return None;
    }
    let c = skip_ws_at(s, b + 1);
    let (value, d) = match parse_string_at(s, c) {
        Some(vv) => vv,
        None => {
            return None;
        },
    };
    let e = skip_ws_at(s, d);
    if e < len && s[e] == 44 {
        let ghost pre = pairs.deep_view();
        let ghost kview = key@;
        let ghost vview = value@;
        pairs.push((key, value));
        proof {
            assert(pairs.deep_view() =~~= pre + seq![(kview, vview)]);
        }
        match parse_members_at(s, e + 1, pairs) {
            Some(n) => {
                proof {
                    let (rest, m) = spec_parse_members(s@, e + 1).unwrap();
                    assert((pre + seq![(kview, vview)]) + rest =~= pre + (seq![(kview, vview)]
                        + rest));
                }
                Some(n)
            },
            None => None,
        }
    } else if e < len && s[e] == 125 {
        let ghost pre = pairs.deep_view();
        let ghost kview = key@;
        let ghost vview = value@;
        pairs.push((key, value));
        proof {
            assert(pairs.deep_view() =~~= pre + seq![(kview, vview)]);
        }
        Some(e + 1)
    } else {
        None
    }
}

/// Parses a whole byte sequence as a flat JSON object whose values are all
/// strings, the shape of the external CA tool's responses.
pub fn parse_flat_object(s: &[u8]) -> (r: Result<Vec<(Vec<u8>, Vec<u8>)>, KawsError>)
    ensures
        match r {
            Ok(pairs) => spec_parse_flat_object(s@) == Some(pairs.deep_view()),
            Err(e) => {
                &&& spec_parse_flat_object(s@) is None
                &&& e.kind == KawsErrorKind::Parse
                &&& e.message@ == "malformed JSON object"@
            },
        },
{
    let len: usize = s.len();
    let i = skip_ws_at(s, 0);
    if !(i < len && s[i] == 123) {
        return Err(KawsError::parse(String::from_str("malformed JSON object")));
    }
    let j = skip_ws_at(s, i + 1);
    if j < len && s[j] == 125 {
        if skip_ws_at(s, j + 1) == len {
            let pairs: Vec<(Vec<u8>, Vec<u8>)> = Vec::new();
            proof {
                assert(pairs.deep_view() =~= Seq::<(Seq<u8>, Seq<u8>)>::empty());
            }
            Ok(pairs)
        } else {
            Err(KawsError::parse(String::from_str("malformed JSON object")))
        }
    } else {
        let mut pairs: Vec<(Vec<u8>, Vec<u8>)> = Vec::new();
        let ghost empty = pairs.deep_view();
        match parse_members_at(s, i + 1, &mut pairs) {
            Some(n) => {
                if skip_ws_at(s, n) == len {
                    proof {
                        let (ps, m) = spec_parse_members(s@, i + 1).unwrap();
                        assert(empty + ps =~= ps);
                    }
                    Ok(pairs)
                } else {
                    Err(KawsError::parse(String::from_str("malformed JSON object")))
                }
            },
            None => Err(KawsError::parse(String::from_str("malformed JSON object"))),
        }
    }
}

/// Byte-for-byte equality of two slices.
pub fn bytes_eq(a: &[u8], b: &[u8]) -> (r: bool)
    ensures
        r == (a@ == b@),
{
    if a.len() != b.len() {
        proof {
            assert(a@.len() != b@.len());
        }
        return false;
    }
    let len: usize = a.len();
    let mut i: usize = 0;
    while i < len
        invariant
            i <= len,
            len == a@.len() == b@.len(),
            forall|k: int| 0 <= k < i ==> a@[k] == b@[k],
        decreases len - i,
    {
        if a[i] != b[i] {
            return false;
        }
        i = i + 1;
    }
    proof {
        assert(a@ =~= b@);
    }
    true
}

/// Looks a key up among the parsed members: the first value under that key.
pub fn object_get<'a>(pairs: &'a Vec<(Vec<u8>, Vec<u8>)>, key: &[u8]) -> (r: Option<&'a Vec<u8>>)
    ensures
        match r {
            Some(v) => spec_object_get(pairs.deep_view(), key@) == Some(v@),
            None => spec_object_get(pairs.deep_view(), key@) is None,
        },
{
    let len: usize = pairs.len();
    let mut idx: usize = 0;
    proof {
        assert(pairs.deep_view().skip(0) =~= pairs.deep_view());
        assert(pairs.deep_view().len() == pairs@.len());
    }
    while idx < len
        invariant
            idx <= len,
            len == pairs@.len(),
            pairs.deep_view().len() == len,
            spec_object_get(pairs.deep_view(), key@) == spec_object_get(
                pairs.deep_view().skip(idx as int),
                key@,
            ),
        decreases len - idx,
    {
        let ghost dv = pairs.deep_view();
        proof {
            assert(dv.skip(idx as int)[0] == dv[idx as int]);
            assert(dv.skip(idx as int).skip(1) =~= dv.skip(idx as int + 1));
        }
        if bytes_eq(pairs[idx].0.as_slice(), key) {
            proof {
                assert(dv[idx as int].0 == pairs@[idx as int].0@);
                assert(dv[idx as int].1 == pairs@[idx as int].1@);
            }
            return Some(&pairs[idx].1);
        }
        proof {
            assert(dv[idx as int].0 == pairs@[idx as int].0@);
        }
        idx = idx + 1;
    }
    proof {
        assert(pairs.deep_view().skip(len as int) =~= Seq::<(Seq<u8>, Seq<u8>)>::empty());
    }
    None
}

} // verus!
