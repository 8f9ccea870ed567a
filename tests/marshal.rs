use webview_shim::marshal::{decode_text, encode_c_string};

#[test]
fn encode_appends_terminator() {
    assert_eq!(encode_c_string("hi"), Some(vec![104u8, 105, 0]));
    assert_eq!(encode_c_string(""), Some(vec![0u8]));
    assert_eq!(encode_c_string("é"), Some(vec![0xC3u8, 0xA9, 0]));
}

#[test]
fn encode_refuses_inner_zero() {
    assert_eq!(encode_c_string("a\0b"), None);
}

#[test]
fn decode_valid_utf8() {
    assert_eq!(decode_text(b"abc"), "abc");
    assert_eq!(decode_text(&[]), "");
}

#[test]
fn decode_replaces_invalid_bytes() {
    assert_eq!(decode_text(&[0x61, 0xFF, 0x62]), "a\u{FFFD}b");
}
