use dumstr::mem::memchr;
use dumstr::utf8::utf8_check;

#[test]
fn memchr_finds_first_occurrence() {
    assert_eq!(memchr(0, b"ab\0cd\0"), Some(2));
    assert_eq!(memchr(b'a', b"aba"), Some(0));
    assert_eq!(memchr(b'c', b"abc"), Some(2));
}

#[test]
fn memchr_reports_absence() {
    assert_eq!(memchr(b'x', b"abc"), None);
    assert_eq!(memchr(0, b""), None);
    assert_eq!(memchr(0, b"abc"), None);
}

#[test]
fn utf8_check_accepts_valid_sequences() {
    assert_eq!(utf8_check(b""), None);
    assert_eq!(utf8_check(b"plain ascii"), None);
    assert_eq!(utf8_check(&[0x7f]), None);
    // extremes of each width
    assert_eq!(utf8_check(&[0xc2, 0x80]), None);
    assert_eq!(utf8_check(&[0xdf, 0xbf]), None);
    assert_eq!(utf8_check(&[0xe0, 0xa0, 0x80]), None);
    assert_eq!(utf8_check(&[0xed, 0x9f, 0xbf]), None);
    assert_eq!(utf8_check(&[0xef, 0xbf, 0xbf]), None);
    assert_eq!(utf8_check(&[0xf0, 0x90, 0x80, 0x80]), None);
    assert_eq!(utf8_check(&[0xf4, 0x8f, 0xbf, 0xbf]), None);
    assert_eq!(utf8_check("a\u{00e9}\u{4e2d}\u{1f600}".as_bytes()), None);
}

#[test]
fn utf8_check_rejects_bad_leads() {
    // stray continuation byte
    assert_eq!(utf8_check(&[0x80]), Some(0));
    // bytes that can never appear in UTF-8
    assert_eq!(utf8_check(&[0xfe]), Some(0));
    assert_eq!(utf8_check(&[0xff, 0x00]), Some(0));
    assert_eq!(utf8_check(&[0xf5, 0x80, 0x80, 0x80]), Some(0));
}

#[test]
fn utf8_check_rejects_overlong_encodings() {
    assert_eq!(utf8_check(&[0xc0, 0xaf]), Some(0));
    assert_eq!(utf8_check(&[0xc1, 0x80]), Some(0));
    assert_eq!(utf8_check(&[0xe0, 0x9f, 0x80]), Some(0));
    assert_eq!(utf8_check(&[0xf0, 0x8f, 0x80, 0x80]), Some(0));
}

#[test]
fn utf8_check_rejects_surrogates_and_out_of_range() {
    assert_eq!(utf8_check(&[0xed, 0xa0, 0x80]), Some(0));
    assert_eq!(utf8_check(&[0xf4, 0x90, 0x80, 0x80]), Some(0));
}

#[test]
fn utf8_check_rejects_truncated_sequences() {
    assert_eq!(utf8_check(&[0x61, 0xc2]), Some(1));
    assert_eq!(utf8_check(&[0xe2, 0x82]), Some(0));
    assert_eq!(utf8_check(&[0xf0, 0x90, 0x80]), Some(0));
}

#[test]
fn utf8_check_reports_offset_of_first_bad_byte() {
    assert_eq!(utf8_check(&[0x61, 0x62, 0xff]), Some(2));
    assert_eq!(utf8_check(&[0xc2, 0x41]), Some(0));
    assert_eq!(utf8_check(b"abc\xe2\x82"), Some(3));
}
