//! Base64, as the persisted key artifacts use it: the standard alphabet,
//! `=` padding, no line breaks. Private keys at rest are the base64 encoding
//! of the ciphertext returned by the remote key-management service, so both
//! directions are defined here as specification functions and implemented
//! against them exactly. Decoding is strict: it accepts exactly the canonical
//! encodings, so a decoded value re-encodes to the very input.

use vstd::prelude::*;
use vstd::string::StringExecFns;

use crate::error::{KawsError, KawsErrorKind};

verus! {

/// The alphabet: value `v` (below 64) as its base64 digit, an ASCII byte.
pub open spec fn b64_char(v: u8) -> u8
    recommends
        v < 64,
{
    if v < 26 {
        (v + 65) as u8  // 'A'..='Z'
    } else if v < 52 {
        (v + 71) as u8  // 'a'..='z'
    } else if v < 62 {
        (v - 4) as u8  // '0'..='9'
    } else if v == 62 {
        43u8  // '+'
    } else {
        47u8  // '/'
    }
}

/// The inverse alphabet: the value of an ASCII byte, or `None` for a byte
/// outside the alphabet (`=` included).
pub open spec fn b64_value(c: u8) -> Option<u8> {
    if 65 <= c <= 90 {
        Some((c - 65) as u8)
    } else if 97 <= c <= 122 {
        Some((c - 71) as u8)
    } else if 48 <= c <= 57 {
        Some((c + 4) as u8)
    } else if c == 43 {
        Some(62u8)
    } else if c == 47 {
        Some(63u8)
    } else {
        None
    }
}

/// Three input bytes as four base64 digits.
pub open spec fn encode_group3(b0: u8, b1: u8, b2: u8) -> Seq<u8> {
    seq![
        b64_char((b0 / 4) as u8),
        b64_char(((b0 % 4) * 16 + b1 / 16) as u8),
        b64_char(((b1 % 16) * 4 + b2 / 64) as u8),
        b64_char((b2 % 64) as u8),
    ]
}

/// A final single byte as two digits and two padding bytes.
pub open spec fn encode_tail1(b0: u8) -> Seq<u8> {
    seq![b64_char((b0 / 4) as u8), b64_char(((b0 % 4) * 16) as u8), 61u8, 61u8]
}

/// Two final bytes as three digits and one padding byte.
pub open spec fn encode_tail2(b0: u8, b1: u8) -> Seq<u8> {
    seq![
        b64_char((b0 / 4) as u8),
        b64_char(((b0 % 4) * 16 + b1 / 16) as u8),
        b64_char(((b1 % 16) * 4) as u8),
        61u8,
    ]
}

/// The base64 encoding of a byte sequence.
pub open spec fn b64_encode(s: Seq<u8>) -> Seq<u8>
    decreases s.len(),
{
    if s.len() == 0 {
        Seq::empty()
    } else if s.len() == 1 {
        encode_tail1(s[0])
    } else if s.len() == 2 {
        encode_tail2(s[0], s[1])
    } else {
        encode_group3(s[0], s[1], s[2]) + b64_encode(s.skip(3))
    }
}

/// Four digits (no padding allowed) as three bytes.
pub open spec fn decode_group(c0: u8, c1: u8, c2: u8, c3: u8) -> Option<Seq<u8>> {
    match (b64_value(c0), b64_value(c1), b64_value(c2), b64_value(c3)) {
        (Some(v0), Some(v1), Some(v2), Some(v3)) => Some(
            seq![
                (v0 * 4 + v1 / 16) as u8,
                ((v1 % 16) * 16 + v2 / 4) as u8,
                ((v2 % 4) * 64 + v3) as u8,
            ],
        ),
        _ => None,
    }
}

/// The last four bytes of an encoding: padding is allowed here, and the
/// unused low bits of the last digit must be zero, so that exactly the
/// canonical encodings are accepted.
pub open spec fn decode_final_group(c0: u8, c1: u8, c2: u8, c3: u8) -> Option<Seq<u8>> {
    if c3 == 61 {
        if c2 == 61 {
            match (b64_value(c0), b64_value(c1)) {
                (Some(v0), Some(v1)) => if v1 % 16 == 0 {
                    Some(seq![(v0 * 4 + v1 / 16) as u8])
                } else {
                    None
                },
                _ => None,
            }
        } else {
            match (b64_value(c0), b64_value(c1), b64_value(c2)) {
                (Some(v0), Some(v1), Some(v2)) => if v2 % 4 == 0 {
                    Some(seq![(v0 * 4 + v1 / 16) as u8, ((v1 % 16) * 16 + v2 / 4) as u8])
                } else {
                    None
                },
                _ => None,
            }
        }
    } else {
        decode_group(c0, c1, c2, c3)
    }
}

/// The decoding of a canonical base64 sequence, or `None` for anything else.
pub open spec fn b64_decode(s: Seq<u8>) -> Option<Seq<u8>>
    decreases s.len(),
{
    if s.len() == 0 {
        Some(Seq::empty())
    } else if s.len() % 4 != 0 {
        None
    } else if s.len() == 4 {
        decode_final_group(s[0], s[1], s[2], s[3])
    } else {
        match decode_group(s[0], s[1], s[2], s[3]) {
            Some(b) => match b64_decode(s.skip(4)) {
                Some(rest) => Some(b + rest),
                None => None,
            },
            None => None,
        }
    }
}

/// Whether a byte sequence is a canonical base64 encoding.
pub open spec fn is_base64(s: Seq<u8>) -> bool {
    b64_decode(s) is Some
}

proof fn lemma_value_char(v: u8)
    requires
        v < 64,
    ensures
        b64_value(b64_char(v)) == Some(v),
        b64_char(v) != 61,
{
}

/// Encoding a sequence whose length is a multiple of three and then more
/// bytes is encoding each part and concatenating.
proof fn lemma_encode_append(s: Seq<u8>, t: Seq<u8>)
    requires
        s.len() % 3 == 0,
    ensures
        b64_encode(s + t) == b64_encode(s) + b64_encode(t),
    decreases s.len(),
{
    if s.len() == 0 {
        assert(s + t =~= t);
        assert(b64_encode(s) + b64_encode(t) =~= b64_encode(t));
    } else {
        let u = s + t;
        assert(u.len() >= 3);
        assert(u[0] == s[0] && u[1] == s[1] && u[2] == s[2]);
        assert(u.skip(3) =~= s.skip(3) + t);
        lemma_encode_append(s.skip(3), t);
        assert(b64_encode(s + t) =~= b64_encode(s) + b64_encode(t));
    }
}

/// The length of an encoding: four digits for every started group of three
/// input bytes.
pub proof fn lemma_encode_len(s: Seq<u8>)
    ensures
        b64_encode(s).len() == 4 * ((s.len() + 2) / 3),
        b64_encode(s).len() % 4 == 0,
    decreases s.len(),
{
    if s.len() >= 3 {
        lemma_encode_len(s.skip(3));
    }
}

/// Decoding inverts encoding: every byte sequence is recovered exactly from
/// its base64 encoding.
pub proof fn lemma_base64_round_trip(s: Seq<u8>)
    ensures
        b64_decode(b64_encode(s)) == Some(s),
    decreases s.len(),
{
    let e = b64_encode(s);
    if s.len() == 0 {
        assert(b64_decode(e) == Some(Seq::<u8>::empty()));
        assert(Seq::<u8>::empty() =~= s);
    } else if s.len() == 1 {
        lemma_value_char((s[0] / 4) as u8);
        lemma_value_char(((s[0] % 4) * 16) as u8);
        assert(b64_decode(e) matches Some(b) && b =~= s);
    } else if s.len() == 2 {
        lemma_value_char((s[0] / 4) as u8);
        lemma_value_char(((s[0] % 4) * 16 + s[1] / 16) as u8);
        lemma_value_char(((s[1] % 16) * 4) as u8);
        assert(b64_decode(e) matches Some(b) && b =~= s);
    } else {
        lemma_value_char((s[0] / 4) as u8);
        lemma_value_char(((s[0] % 4) * 16 + s[1] / 16) as u8);
        lemma_value_char(((s[1] % 16) * 4 + s[2] / 64) as u8);
        lemma_value_char((s[2] % 64) as u8);
        lemma_encode_len(s.skip(3));
        lemma_encode_len(s);
        lemma_base64_round_trip(s.skip(3));
        assert(e.skip(4) =~= b64_encode(s.skip(3)));
        if s.len() == 3 {
            assert(e.len() == 4);
            assert(b64_decode(e) matches Some(b) && b =~= s);
        } else {
            assert(e.len() > 4);
            assert(decode_group(e[0], e[1], e[2], e[3]) matches Some(b) && b =~= s.take(3));
            assert(b64_decode(e) matches Some(b) && b =~= s.take(3) + s.skip(3));
            assert(s.take(3) + s.skip(3) =~= s);
        }
    }
}

/// Every encoding this module produces is valid base64.
pub proof fn lemma_encode_is_base64(s: Seq<u8>)
    ensures
        is_base64(b64_encode(s)),
{
    lemma_base64_round_trip(s);
}

proof fn lemma_char_value(c: u8)
    requires
        b64_value(c) is Some,
    ensures
        b64_char(b64_value(c).unwrap()) == c,
        b64_value(c).unwrap() < 64,
{
}

/// Encoding inverts decoding: the decoder accepts exactly the canonical
/// encodings, so whatever it accepts re-encodes to the very same bytes.
#[verifier::rlimit(50)]
pub proof fn lemma_base64_canonical(s: Seq<u8>)
    requires
        b64_decode(s) is Some,
    ensures
        b64_encode(b64_decode(s).unwrap()) == s,
    decreases s.len(),
{
    let b = b64_decode(s).unwrap();
    if s.len() == 0 {
        assert(b64_encode(b) =~= s);
    } else if s.len() == 4 {
        if s[3] == 61 {
            if s[2] == 61 {
                lemma_char_value(s[0]);
                lemma_char_value(s[1]);
                assert(b64_encode(b) =~= s);
            } else {
                lemma_char_value(s[0]);
                lemma_char_value(s[1]);
                lemma_char_value(s[2]);
                assert(b64_encode(b) =~= s);
            }
        } else {
            lemma_char_value(s[0]);
            lemma_char_value(s[1]);
            lemma_char_value(s[2]);
            lemma_char_value(s[3]);
            assert(b.len() == 3);
            assert(b64_encode(b) == encode_group3(b[0], b[1], b[2]) + b64_encode(b.skip(3)));
            assert(b.skip(3) =~= Seq::<u8>::empty());
            assert(b64_encode(b) =~= s);
        }
    } else {
        lemma_char_value(s[0]);
        lemma_char_value(s[1]);
        lemma_char_value(s[2]);
        lemma_char_value(s[3]);
        lemma_base64_canonical(s.skip(4));
        let g = decode_group(s[0], s[1], s[2], s[3]).unwrap();
        let rest = b64_decode(s.skip(4)).unwrap();
        assert(b == g + rest);
        assert(b.len() >= 3);
        assert(b[0] == g[0] && b[1] == g[1] && b[2] == g[2]);
        assert(b.skip(3) =~= rest);
        assert(b64_encode(b) == encode_group3(b[0], b[1], b[2]) + b64_encode(rest));
        assert(b64_encode(b) =~= s) by {
            assert(encode_group3(g[0], g[1], g[2]) =~= s.take(4));
            assert(s.take(4) + s.skip(4) =~= s);
        }
    }
}

fn b64_char_of(v: u8) -> (c: u8)
    requires
        v < 64,
    ensures
        c == b64_char(v),
{
    if v < 26 {
        v + 65
    } else if v < 52 {
        v + 71
    } else if v < 62 {
        v - 4
    } else if v == 62 {
        43
    } else {
        47
    }
}

fn b64_value_of(c: u8) -> (v: Option<u8>)
    ensures
        v == b64_value(c),
{
    if 65 <= c && c <= 90 {
        Some(c - 65)
    } else if 97 <= c && c <= 122 {
        Some(c - 71)
    } else if 48 <= c && c <= 57 {
        Some(c + 4)
    } else if c == 43 {
        Some(62)
    } else if c == 47 {
        Some(63)
    } else {
        None
    }
}

/// Encodes bytes as canonical base64.
pub fn base64_encode(bytes: &[u8]) -> (r: Vec<u8>)
    ensures
        r@ == b64_encode(bytes@),
{
    let len: usize = bytes.len();
    let mut out: Vec<u8> = Vec::new();
    let mut i: usize = 0;
    while len - i >= 3
        invariant
            i % 3 == 0,
            i <= len,
            len == bytes@.len(),
            out@ == b64_encode(bytes@.take(i as int)),
        decreases len - i,
    {
        let b0 = bytes[i];
        let b1 = bytes[i + 1];
        let b2 = bytes[i + 2];
        out.push(b64_char_of(b0 / 4));
        out.push(b64_char_of((b0 % 4) * 16 + b1 / 16));
        out.push(b64_char_of((b1 % 16) * 4 + b2 / 64));
        out.push(b64_char_of(b2 % 64));
        proof {
            let prefix = bytes@.take(i as int);
            let group = seq![b0, b1, b2];
            assert(bytes@.take(i + 3) =~= prefix + group);
            lemma_encode_append(prefix, group);
            assert(b64_encode(group) =~= encode_group3(b0, b1, b2) + b64_encode(
                group.skip(3),
            ));
            assert(group.skip(3) =~= Seq::<u8>::empty());
            assert(out@ =~= b64_encode(prefix) + b64_encode(group));
        }
        i = i + 3;
    }
    if len - i == 1 {
        let b0 = bytes[i];
        out.push(b64_char_of(b0 / 4));
        out.push(b64_char_of((b0 % 4) * 16));
        out.push(61);
        out.push(61);
        proof {
            let prefix = bytes@.take(i as int);
            let tail = seq![b0];
            assert(bytes@ =~= prefix + tail);
            lemma_encode_append(prefix, tail);
            assert(out@ =~= b64_encode(prefix) + encode_tail1(b0));
        }
    } else if len - i == 2 {
        let b0 = bytes[i];
        let b1 = bytes[i + 1];
        out.push(b64_char_of(b0 / 4));
        out.push(b64_char_of((b0 % 4) * 16 + b1 / 16));
        out.push(b64_char_of((b1 % 16) * 4));
        out.push(61);
        proof {
            let prefix = bytes@.take(i as int);
            let tail = seq![b0, b1];
            assert(bytes@ =~= prefix + tail);
            lemma_encode_append(prefix, tail);
            assert(out@ =~= b64_encode(prefix) + encode_tail2(b0, b1));
        }
    } else {
        proof {
            assert(bytes@.take(i as int) =~= bytes@);
        }
    }
    out
}

/// The bytes of a decoded final group, one to three of them.
pub open spec fn final_bytes(b0: u8, rest1: Option<u8>, rest2: Option<u8>) -> Seq<u8> {
    match (rest1, rest2) {
        (Some(b1), Some(b2)) => seq![b0, b1, b2],
        (Some(b1), None) => seq![b0, b1],
        (None, _) => seq![b0],
    }
}

fn decode_group_of(c0: u8, c1: u8, c2: u8, c3: u8) -> (r: Option<(u8, u8, u8)>)
    ensures
        match r {
            Some((b0, b1, b2)) => decode_group(c0, c1, c2, c3) == Some(seq![b0, b1, b2]),
            None => decode_group(c0, c1, c2, c3) is None,
        },
{
    match (b64_value_of(c0), b64_value_of(c1), b64_value_of(c2), b64_value_of(c3)) {
        (Some(v0), Some(v1), Some(v2), Some(v3)) => {
            let b = (v0 * 4 + v1 / 16, (v1 % 16) * 16 + v2 / 4, (v2 % 4) * 64 + v3);
            proof {
                assert(decode_group(c0, c1, c2, c3) matches Some(s) && s =~= seq![
                    b.0,
                    b.1,
                    b.2,
                ]);
            }
            Some(b)
        },
        _ => None,
    }
}

fn decode_final_of(c0: u8, c1: u8, c2: u8, c3: u8) -> (r: Option<(u8, Option<u8>, Option<u8>)>)
    ensures
        match r {
            Some((b0, rest1, rest2)) => decode_final_group(c0, c1, c2, c3) == Some(
                final_bytes(b0, rest1, rest2),
            ),
            None => decode_final_group(c0, c1, c2, c3) is None,
        },
{
    if c3 == 61 {
        if c2 == 61 {
            match (b64_value_of(c0), b64_value_of(c1)) {
                (Some(v0), Some(v1)) => {
                    if v1 % 16 == 0 {
                        proof {
                            assert(decode_final_group(c0, c1, c2, c3) matches Some(s) && s =~= seq![
                                (v0 * 4 + v1 / 16) as u8,
                            ]);
                        }
                        Some((v0 * 4 + v1 / 16, None, None))
                    } else {
                        None
                    }
                },
                _ => None,
            }
        } else {
            match (b64_value_of(c0), b64_value_of(c1), b64_value_of(c2)) {
                (Some(v0), Some(v1), Some(v2)) => {
                    if v2 % 4 == 0 {
                        proof {
                            assert(decode_final_group(c0, c1, c2, c3) matches Some(s) && s =~= seq![
                                (v0 * 4 + v1 / 16) as u8,
                                ((v1 % 16) * 16 + v2 / 4) as u8,
                            ]);
                        }
                        Some((v0 * 4 + v1 / 16, Some((v1 % 16) * 16 + v2 / 4), None))
                    } else {
                        None
                    }
                },
                _ => None,
            }
        }
    } else {
        match decode_group_of(c0, c1, c2, c3) {
            Some((b0, b1, b2)) => {
                proof {
                    assert(final_bytes(b0, Some(b1), Some(b2)) =~= seq![b0, b1, b2]);
                }
                Some((b0, Some(b1), Some(b2)))
            },
            None => None,
        }
    }
}

/// Decodes canonical base64, or reports a parse error for any byte sequence
/// that no encoding produces.
pub fn base64_decode(encoded: &[u8]) -> (r: Result<Vec<u8>, KawsError>)
    ensures
        match r {
            Ok(b) => b64_decode(encoded@) == Some(b@),
            Err(e) => {
                &&& b64_decode(encoded@) is None
                &&& e.kind == KawsErrorKind::Parse
                &&& e.message@ == "invalid base64 data"@
            },
        },
{
    let len: usize = encoded.len();
    if len == 0 {
        proof {
            assert(Seq::<u8>::empty() =~= b64_decode(encoded@).unwrap());
        }
        return Ok(Vec::new());
    }
    if len % 4 != 0 {
        return Err(KawsError::parse(String::from_str("invalid base64 data")));
    }
    let mut out: Vec<u8> = Vec::new();
    let mut i: usize = 0;
    proof {
        assert(encoded@.skip(0) =~= encoded@);
    }
    while len - i > 4
        invariant
            i % 4 == 0,
            len % 4 == 0,
            i + 4 <= len,
            0 < len == encoded@.len(),
            b64_decode(encoded@) == match b64_decode(encoded@.skip(i as int)) {
                Some(rest) => Some(out@ + rest),
                None => None::<Seq<u8>>,
            },
        decreases len - i,
    {
        proof {
            lemma_decode_unfold(encoded@, i as int);
        }
        match decode_group_of(encoded[i], encoded[i + 1], encoded[i + 2], encoded[i + 3]) {
            Some((b0, b1, b2)) => {
                let ghost pre = out@;
                out.push(b0);
                out.push(b1);
                out.push(b2);
                proof {
                    assert(out@ =~= pre + seq![b0, b1, b2]);
                    assert(forall|rest: Seq<u8>|
                        pre + (seq![b0, b1, b2] + rest) =~= (pre + seq![b0, b1, b2]) + rest);
                }
                i = i + 4;
            },
            None => {
                return Err(KawsError::parse(String::from_str("invalid base64 data")));
            },
        }
    }
    proof {
        assert(encoded@.skip(i as int).len() == 4);
        assert(b64_decode(encoded@.skip(i as int)) == decode_final_group(
            encoded@[i as int],
            encoded@[i as int + 1],
            encoded@[i as int + 2],
            encoded@[i as int + 3],
        ));
    }
    match decode_final_of(encoded[i], encoded[i + 1], encoded[i + 2], encoded[i + 3]) {
        Some((b0, rest1, rest2)) => {
            let ghost pre = out@;
            out.push(b0);
            if let Some(b1) = rest1 {
                out.push(b1);
                if let Some(b2) = rest2 {
                    out.push(b2);
                }
            }
            proof {
                assert(out@ =~= pre + final_bytes(b0, rest1, rest2));
            }
            Ok(out)
        },
        None => Err(KawsError::parse(String::from_str("invalid base64 data"))),
    }
}

/// Unfolds one non-final group of the decoding.
proof fn lemma_decode_unfold(s: Seq<u8>, i: int)
    requires
        0 <= i,
        i % 4 == 0,
        s.len() % 4 == 0,
        i + 4 < s.len(),
    ensures
        b64_decode(s.skip(i)) == match decode_group(s[i], s[i + 1], s[i + 2], s[i + 3]) {
            Some(b) => match b64_decode(s.skip(i + 4)) {
                Some(rest) => Some(b + rest),
                None => None::<Seq<u8>>,
            },
            None => None::<Seq<u8>>,
        },
{
    let t = s.skip(i);
    assert(t.len() == s.len() - i);
    assert(t.len() % 4 == 0) by {
        assert(s.len() % 4 == 0 && i % 4 == 0);
        assert((s.len() - i) % 4 == 0) by (nonlinear_arith)
            requires
                s.len() % 4 == 0,
                i % 4 == 0,
        ;
    }
    assert(t.len() > 4);
    assert(t[0] == s[i] && t[1] == s[i + 1] && t[2] == s[i + 2] && t[3] == s[i + 3]);
    assert(t.skip(4) =~= s.skip(i + 4));
}

} // verus!
