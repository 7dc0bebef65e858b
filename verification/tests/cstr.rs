use ffi_bridge::cstr::strlen_rs;

#[test]
fn test_strlen_rs() {
    let s = b"Hola, mundo!\0";
    let len = strlen_rs(s);
    assert_eq!(len, s.len() as u32 - 1);
}

#[test]
fn strlen_of_empty_string_is_zero() {
    assert_eq!(strlen_rs(b"\0"), 0);
}

#[test]
fn strlen_stops_at_first_nul() {
    assert_eq!(strlen_rs(b"abc\0def\0"), 3);
    assert_eq!(strlen_rs(&[0u8, 1, 2, 3]), 0);
}

#[test]
fn strlen_ignores_bytes_after_terminator() {
    let mut buf = b"terminated\0".to_vec();
    let before = strlen_rs(&buf);
    buf.extend_from_slice(b"trailing garbage\0");
    assert_eq!(strlen_rs(&buf), before);
    assert_eq!(before, 10);
}

#[test]
fn strlen_counts_bytes_not_characters() {
    let s = "上海\0".as_bytes();
    assert_eq!(strlen_rs(s), 6);
}
