//! The base64 codec against known vectors, against the reference crate, and
//! around its strictness.

use kaws::base64::{base64_decode, base64_encode};
use rustc_serialize::base64::{FromBase64, ToBase64, STANDARD};

#[test]
fn encode_known_vectors() {
    assert_eq!(base64_encode(b""), b"".to_vec());
    assert_eq!(base64_encode(b"M"), b"TQ==".to_vec());
    assert_eq!(base64_encode(b"Ma"), b"TWE=".to_vec());
    assert_eq!(base64_encode(b"Man"), b"TWFu".to_vec());
    assert_eq!(base64_encode(b"Many"), b"TWFueQ==".to_vec());
    assert_eq!(
        base64_encode(b"any carnal pleasure."),
        b"YW55IGNhcm5hbCBwbGVhc3VyZS4=".to_vec()
    );
}

#[test]
fn encode_matches_reference_crate() {
    let cases: Vec<Vec<u8>> = vec![
        vec![],
        vec![0],
        vec![255],
        vec![0, 0, 0],
        vec![1, 2, 3, 4, 5, 6, 7, 8, 9, 10, 251, 252, 253, 254, 255],
        (0u8..=255).collect(),
        b"-----BEGIN CERTIFICATE-----\nabc/def+ghi=\n-----END CERTIFICATE-----\n".to_vec(),
    ];
    for case in cases {
        let mine = base64_encode(&case);
        let reference = case.to_base64(STANDARD);
        assert_eq!(String::from_utf8(mine).unwrap(), reference);
    }
}

#[test]
fn decode_inverts_reference_encoding() {
    let cases: Vec<Vec<u8>> = vec![
        vec![],
        vec![42],
        vec![13, 10],
        (0u8..=255).collect(),
    ];
    for case in cases {
        let reference = case.to_base64(STANDARD);
        let decoded = base64_decode(reference.as_bytes()).unwrap();
        assert_eq!(decoded, case);
        assert_eq!(reference.as_bytes().from_base64().unwrap(), case);
    }
}

#[test]
fn decode_round_trips_every_length() {
    for len in 0..60usize {
        let bytes: Vec<u8> = (0..len).map(|i| (i * 37 + 11) as u8).collect();
        let encoded = base64_encode(&bytes);
        assert_eq!(base64_decode(&encoded).unwrap(), bytes);
    }
}

#[test]
fn decode_rejects_bad_lengths() {
    assert!(base64_decode(b"A").is_err());
    assert!(base64_decode(b"AB").is_err());
    assert!(base64_decode(b"ABC").is_err());
    assert!(base64_decode(b"ABCDE").is_err());
}

#[test]
fn decode_rejects_bad_characters() {
    assert!(base64_decode(b"AB!D").is_err());
    assert!(base64_decode(b"====").is_err());
    assert!(base64_decode(b"A===").is_err());
    assert!(base64_decode(b"=AAA").is_err());
    assert!(base64_decode(b"TWE=TWE=").is_err());
}

#[test]
fn decode_rejects_noncanonical_padding_bits() {
    // "QR==" carries nonzero bits under the padding; only "QQ==" encodes [65].
    assert!(base64_decode(b"QR==").is_err());
    assert_eq!(base64_decode(b"QQ==").unwrap(), vec![65u8]);
}

#[test]
fn decode_reports_parse_error() {
    let e = base64_decode(b"not base64!").unwrap_err();
    assert_eq!(e.kind, kaws::error::KawsErrorKind::Parse);
    assert_eq!(e.message, "invalid base64 data");
}
