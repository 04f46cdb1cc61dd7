use dumstr::{DStr, DString, FromBytesError, FromStrError};

#[test]
fn round_trip_text_with_terminator() {
    let d = DStr::from_str_with_nul("hello\0").unwrap();
    assert_eq!(d.as_str_with_nul(), "hello\0");
    assert_eq!(d.as_str(), "hello");
}

#[test]
fn round_trip_bytes_with_terminator() {
    let d = DStr::from_bytes_with_nul(b"ab\0").unwrap();
    assert_eq!(d.as_str_with_nul(), "ab\0");
    assert_eq!(d.as_bytes_with_nul(), b"ab\0");
    assert_eq!(d.as_bytes(), b"ab");
}

#[test]
fn interior_nul_reports_first_offset() {
    let err = DStr::from_str_with_nul("ab\0cd\0").unwrap_err();
    assert_eq!(err, FromStrError::InteriorNul(2));

    let err = DStr::from_bytes_with_nul(&[0x61, 0x62, 0x00, 0x63, 0x64, 0x00]).unwrap_err();
    assert_eq!(err, FromBytesError::InteriorNul(2));
}

#[test]
fn missing_terminator_is_rejected() {
    assert_eq!(
        DStr::from_str_with_nul("abc").unwrap_err(),
        FromStrError::NotNulTerminated
    );
    assert_eq!(
        DStr::from_str_with_nul("").unwrap_err(),
        FromStrError::MissingNul
    );
    assert_eq!(
        DStr::from_bytes_with_nul(b"abc").unwrap_err(),
        FromBytesError::NotNulTerminated
    );
    assert_eq!(
        DStr::from_bytes_with_nul(b"").unwrap_err(),
        FromBytesError::MissingNul
    );
}

#[test]
fn invalid_utf8_references_first_byte() {
    let err = DStr::from_bytes_with_nul(&[0xFF, 0x00]).unwrap_err();
    match err {
        FromBytesError::InvalidUtf8(detail) => assert_eq!(detail.valid_up_to, 0),
        other => panic!("expected invalid utf-8, got {:?}", other),
    }
}

#[test]
fn valid_single_character_bytes_succeed() {
    let d = DStr::from_bytes_with_nul(&[0x61, 0x00]).unwrap();
    assert_eq!(d.len(), 1);
    assert_eq!(d.as_str(), "a");
}

#[test]
fn lengths_are_consistent() {
    let d = DStr::from_str_with_nul("hi\0").unwrap();
    assert_eq!(d.len_with_nul(), 3);
    assert_eq!(d.len(), 2);
    assert_eq!(d.len_with_nul(), d.len() + 1);
    assert!(!d.is_empty());
}

#[test]
fn empty_view_is_just_the_terminator() {
    let d = DStr::from_str_with_nul("\0").unwrap();
    assert!(d.is_empty());
    assert_eq!(d.len(), 0);
    assert_eq!(d.len_with_nul(), 1);
    assert_eq!(d.as_str(), "");
    assert_eq!(d.as_bytes_with_nul(), &[0x00]);
    assert_eq!(d.as_bytes_with_nul()[0], 0);
}

#[test]
fn multibyte_text_lengths_count_bytes() {
    // 1-, 2-, 3- and 4-byte encodings, then the terminator.
    let text = "a\u{00e9}\u{4e2d}\u{1f600}\0";
    let d = DStr::from_str_with_nul(text).unwrap();
    assert_eq!(d.len_with_nul(), 11);
    assert_eq!(d.len(), 10);
    assert_eq!(d.as_str_with_nul(), text);
    assert_eq!(d.as_str(), "a\u{00e9}\u{4e2d}\u{1f600}");
}

#[test]
fn unchecked_construction_from_str() {
    let d = DStr::from_str_with_nul_unchecked("ok\0");
    assert_eq!(d.as_str_with_nul(), "ok\0");
    assert_eq!(d.len(), 2);
}

#[test]
fn unchecked_construction_from_bytes() {
    let d = DStr::from_bytes_with_nul_unchecked(b"ok\0");
    assert_eq!(d.as_str_with_nul(), "ok\0");
    assert_eq!(d.len(), 2);
}

#[test]
fn owned_buffer_copies_and_delegates() {
    let d = DStr::from_str_with_nul("data\0").unwrap();
    let owned = DString::from_dstr(&d);
    let view = owned.as_dstr();
    assert_eq!(view.as_str_with_nul(), "data\0");
    assert_eq!(view.len(), 4);
    assert_eq!(view.as_bytes(), b"data");
}

#[test]
fn owned_buffer_mutable_view_reads_same_contents() {
    let d = DStr::from_str_with_nul("mut\0").unwrap();
    let mut owned = DString::from_dstr(&d);
    let view = owned.as_dstr_mut();
    assert_eq!(view.as_str_with_nul(), "mut\0");
}

#[test]
fn new_owned_buffer_is_empty() {
    let owned = DString::new();
    let view = owned.as_dstr();
    assert!(view.is_empty());
    assert_eq!(view.len(), 0);
    assert_eq!(view.len_with_nul(), 1);
    assert_eq!(view.as_bytes_with_nul(), &[0x00]);
    assert_eq!(view.as_str_with_nul(), "\0");
}

#[test]
fn byte_views_share_one_storage() {
    // All views must reproduce the buffer exactly, terminator included.
    let bytes = [0x74, 0x65, 0x78, 0x74, 0x00];
    let d = DStr::from_bytes_with_nul(&bytes).unwrap();
    assert_eq!(d.as_bytes_with_nul(), &bytes);
    assert_eq!(d.as_str_with_nul().as_bytes(), &bytes);
    assert_eq!(d.as_bytes_with_nul().len(), d.len_with_nul());
}
