use webhook_bench::encode::{content_body, push_dec_i64, push_dec_u64};

#[test]
fn plain_message_is_wrapped() {
    let body = content_body(&b"Hello World!".to_vec());
    assert_eq!(body, b"{\"content\":\"Hello World!\"}".to_vec());
}

#[test]
fn empty_message_is_wrapped() {
    let body = content_body(&Vec::new());
    assert_eq!(body, b"{\"content\":\"\"}".to_vec());
}

#[test]
fn quotes_backslashes_and_controls_are_escaped() {
    let message = vec![b'a', b'"', b'\\', 8, 9, 10, 12, 13, 1, 31, b'z'];
    let body = content_body(&message);
    let mut exact = b"{\"content\":\"a".to_vec();
    exact.extend_from_slice(b"\\\"");
    exact.extend_from_slice(b"\\\\");
    exact.extend_from_slice(b"\\b");
    exact.extend_from_slice(b"\\t");
    exact.extend_from_slice(b"\\n");
    exact.extend_from_slice(b"\\f");
    exact.extend_from_slice(b"\\r");
    exact.extend_from_slice(b"\\u0001");
    exact.extend_from_slice(b"\\u001f");
    exact.extend_from_slice(b"z\"}");
    assert_eq!(body, exact);
}

#[test]
fn multibyte_text_passes_through() {
    let message = String::from("héllo ✓").into_bytes();
    let body = content_body(&message);
    let mut exact = b"{\"content\":\"".to_vec();
    exact.extend_from_slice("héllo ✓".as_bytes());
    exact.extend_from_slice(b"\"}");
    assert_eq!(body, exact);
}

#[test]
fn unsigned_decimal_digits() {
    let mut out = Vec::new();
    push_dec_u64(&mut out, 0);
    assert_eq!(out, b"0".to_vec());
    let mut out = Vec::new();
    push_dec_u64(&mut out, 120);
    assert_eq!(out, b"120".to_vec());
    let mut out = Vec::new();
    push_dec_u64(&mut out, u64::MAX);
    assert_eq!(out, b"18446744073709551615".to_vec());
}

#[test]
fn signed_decimal_digits() {
    let mut out = Vec::new();
    push_dec_i64(&mut out, -7);
    assert_eq!(out, b"-7".to_vec());
    let mut out = Vec::new();
    push_dec_i64(&mut out, i64::MIN);
    assert_eq!(out, b"-9223372036854775808".to_vec());
    let mut out = Vec::new();
    push_dec_i64(&mut out, i64::MAX);
    assert_eq!(out, b"9223372036854775807".to_vec());
}
