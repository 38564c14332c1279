use javascriptcore::value_ref::{string_result, unless_exception};

#[test]
fn conversion_without_exception_gives_the_value() {
    assert_eq!(unless_exception(42.5f64, false), Some(42.5));
    assert_eq!(unless_exception(true, false), Some(true));
}

#[test]
fn conversion_with_exception_gives_none() {
    assert_eq!(unless_exception(42.5f64, true), None);
}

#[test]
fn string_result_drops_the_terminator() {
    let buffer = b"foobar\0".to_vec();
    assert_eq!(string_result(false, buffer, 7), Some(String::from("foobar")));
}

#[test]
fn string_result_reads_only_what_was_written() {
    let mut buffer = b"42\0".to_vec();
    buffer.extend_from_slice(&[0xff, 0xff, 0xff]);
    assert_eq!(string_result(false, buffer, 3), Some(String::from("42")));
    assert_eq!(string_result(false, vec![0], 1), Some(String::new()));
}

#[test]
fn string_result_decodes_multibyte_text() {
    let buffer = "h\u{e9}llo \u{1F600}\0".as_bytes().to_vec();
    let written = buffer.len();
    assert_eq!(string_result(false, buffer, written), Some(String::from("h\u{e9}llo \u{1F600}")));
}

#[test]
fn string_result_rejects_invalid_utf8() {
    assert_eq!(string_result(false, vec![0x66, 0xff, 0x00], 3), None);
    assert_eq!(string_result(false, vec![0xc3, 0x00], 2), None);
}

#[test]
fn string_result_after_exception_is_none() {
    assert_eq!(string_result(true, b"foobar\0".to_vec(), 7), None);
    assert_eq!(string_result(true, Vec::new(), 0), None);
}
