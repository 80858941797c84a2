use drip_net::utf8::utf8_check;

#[test]
fn accepts_plain_ascii_and_empty() {
    assert!(utf8_check(b""));
    assert!(utf8_check(b"plain ascii text 0123"));
}

#[test]
fn accepts_multibyte_scalars() {
    assert!(utf8_check("caf\u{00e9}".as_bytes())); // 2-byte scalar
    assert!(utf8_check("\u{20ac}".as_bytes())); // 3-byte scalar
    assert!(utf8_check("\u{1f600}".as_bytes())); // 4-byte scalar
    assert!(utf8_check("\u{10ffff}".as_bytes())); // largest scalar
}

#[test]
fn rejects_malformed_sequences() {
    let bad: [&[u8]; 8] = [
        &[0x80],                   // lone continuation byte
        &[0xc3],                   // truncated 2-byte scalar
        &[0xe2, 0x82],             // truncated 3-byte scalar
        &[0xf0, 0x9f, 0x98],       // truncated 4-byte scalar
        &[0xc0, 0x80],             // overlong 2-byte encoding of NUL
        &[0xe0, 0x80, 0xaf],       // overlong 3-byte encoding
        &[0xed, 0xa0, 0x80],       // surrogate
        &[0xf4, 0x90, 0x80, 0x80], // beyond the last scalar
    ];
    for bytes in bad {
        assert!(!utf8_check(bytes), "accepted {bytes:?}");
    }
}

#[test]
fn agrees_with_the_standard_library() {
    let samples: [&[u8]; 10] = [
        b"",
        b"ascii",
        "\u{00e9}\u{20ac}\u{1f600}".as_bytes(),
        &[0xff],
        &[0xc3, 0xa9, 0xc3],
        &[0xed, 0x9f, 0xbf],       // last scalar before the surrogates
        &[0xed, 0xbf, 0xbf],       // inside the surrogate range
        &[0xee, 0x80, 0x80],       // first scalar after the surrogates
        &[0xf0, 0x8f, 0xbf, 0xbf], // overlong 4-byte encoding
        &[0xf4, 0x8f, 0xbf, 0xbf], // the very last scalar
    ];
    for bytes in samples {
        assert_eq!(
            utf8_check(bytes),
            std::str::from_utf8(bytes).is_ok(),
            "disagreement on {bytes:?}"
        );
    }
}
