use imageflow_node::{create_string, get_string, BridgeError, ErrorKind};

#[test]
fn valid_bytes_read_as_their_text() {
    assert_eq!(get_string(b"abc"), Ok(String::from("abc")));
    assert_eq!(get_string(b""), Ok(String::new()));
    assert_eq!(get_string("h\u{e9}llo \u{1f600}".as_bytes()), Ok(String::from("h\u{e9}llo \u{1f600}")));
    assert_eq!(get_string(&[0xe2, 0x82, 0xac]), Ok(String::from("\u{20ac}")));
}

#[test]
fn invalid_bytes_are_an_encoding_error() {
    let error = get_string(&[b'a', 0xff, b'b']).unwrap_err();
    assert_eq!(error.kind, ErrorKind::Encoding);
    assert_eq!(error.text, Some(String::from("invalid utf-8 sequence of 1 bytes from index 1")));
    assert_eq!(error.message(), "invalid utf-8 sequence of 1 bytes from index 1");
    assert!(!error.is_sticky());
}

#[test]
fn truncated_sequence_is_an_encoding_error() {
    let error = get_string(&[b'a', b'b', 0xe2, 0x82]).unwrap_err();
    assert_eq!(
        error,
        BridgeError { kind: ErrorKind::Encoding, text: Some(String::from("incomplete utf-8 byte sequence from index 2")) }
    );
}

#[test]
fn surrogates_and_overlong_forms_are_rejected() {
    assert_eq!(get_string(&[0xed, 0xa0, 0x80]).unwrap_err().kind, ErrorKind::Encoding);
    assert_eq!(get_string(&[0xc0, 0x80]).unwrap_err().kind, ErrorKind::Encoding);
    assert_eq!(get_string(&[0xf4, 0x90, 0x80, 0x80]).unwrap_err().kind, ErrorKind::Encoding);
    assert_eq!(get_string(&[0x80]).unwrap_err().kind, ErrorKind::Encoding);
}

#[test]
fn same_bytes_give_the_same_error_text() {
    let first = get_string(&[0xff, 0xfe]).unwrap_err();
    let second = get_string(&[0xff, 0xfe]).unwrap_err();
    assert_eq!(first, second);
}

#[test]
fn string_for_the_host_ends_in_zero() {
    assert_eq!(create_string("Job"), Some(vec![b'J', b'o', b'b', 0]));
    assert_eq!(create_string(""), Some(vec![0]));
    assert_eq!(create_string("\u{e9}"), Some(vec![0xc3, 0xa9, 0]));
    assert_eq!(
        create_string("getLongVersionString").map(|bytes| bytes.len()),
        Some(21)
    );
}

#[test]
fn string_with_a_zero_byte_has_no_such_form() {
    assert_eq!(create_string("a\0b"), None);
    assert_eq!(create_string("\0"), None);
    assert_eq!(create_string("abc\0"), None);
}
