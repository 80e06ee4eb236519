use sherpa_rs::bridge::{from_native, from_nullable, to_native};

#[test]
fn to_native_appends_one_terminator() {
    let buffer = to_native("tokens.txt").unwrap();
    assert_eq!(buffer.as_bytes_with_nul(), b"tokens.txt\0");
    assert_eq!(buffer.len(), 10);
}

#[test]
fn to_native_of_empty_text_is_a_lone_terminator() {
    let buffer = to_native("").unwrap();
    assert_eq!(buffer.as_bytes_with_nul(), b"\0");
    assert_eq!(buffer.len(), 0);
}

#[test]
fn to_native_rejects_an_embedded_nul() {
    let err = to_native("en\0coder").unwrap_err();
    assert_eq!(err.position, 2);
}

#[test]
fn to_native_reports_the_first_nul_in_bytes() {
    // 'é' takes two bytes, so the zero byte sits at index 3.
    let err = to_native("é0\0\0").unwrap_err();
    assert_eq!(err.position, 3);
}

#[test]
fn from_native_stops_at_the_first_nul() {
    assert_eq!(from_native(b"hello\0world\0"), "hello");
}

#[test]
fn from_native_reads_an_unterminated_buffer_whole() {
    assert_eq!(from_native(b"abc"), "abc");
}

#[test]
fn from_native_substitutes_the_empty_text_for_invalid_utf8() {
    assert_eq!(from_native(&[b'o', b'k', 0xff, 0xfe, 0]), "");
    // A truncated multi-byte sequence is invalid too.
    assert_eq!(from_native(&[0xe4, 0xbd, 0]), "");
}

#[test]
fn from_native_ignores_bytes_after_the_terminator() {
    assert_eq!(from_native(&[b'o', b'k', 0, 0xff, 0xfe]), "ok");
}

#[test]
fn from_nullable_reads_a_missing_field_as_empty() {
    assert_eq!(from_nullable(&None), "");
    assert_eq!(from_nullable(&Some(b"zh\0".to_vec())), "zh");
}

#[test]
fn text_round_trips_through_the_boundary() {
    for text in ["", "greedy_search", "你好，世界", "émotion 😀", "a\u{7f}\u{80}\u{7ff}\u{800}\u{ffff}\u{10000}\u{10ffff}"] {
        let there = to_native(text).unwrap();
        let back = from_native(there.as_bytes_with_nul());
        assert_eq!(back, text);
        let again = to_native(&back).unwrap();
        assert_eq!(again.as_bytes_with_nul(), there.as_bytes_with_nul());
    }
}
