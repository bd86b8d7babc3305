use pdf_canvas::{push_dec, push_padded10, push_signed, push_str};

#[test]
fn decimal_digits() {
    let mut out = Vec::new();
    push_dec(&mut out, 0);
    push_str(&mut out, " ");
    push_dec(&mut out, 9);
    push_str(&mut out, " ");
    push_dec(&mut out, 10);
    push_str(&mut out, " ");
    push_dec(&mut out, u64::MAX);
    assert_eq!(out, b"0 9 10 18446744073709551615".to_vec());
}

#[test]
fn padded_offsets() {
    let mut out = Vec::new();
    push_padded10(&mut out, 0);
    push_padded10(&mut out, 1234);
    push_padded10(&mut out, 9999999999);
    push_padded10(&mut out, 12345678901);
    let expected = "0000000000".to_string() + "0000001234" + "9999999999" + "12345678901";
    assert_eq!(out, expected.into_bytes());
}

#[test]
fn signed_numbers() {
    let mut out = Vec::new();
    push_signed(&mut out, -42);
    push_str(&mut out, " ");
    push_signed(&mut out, 0);
    push_str(&mut out, " ");
    push_signed(&mut out, i64::MIN);
    assert_eq!(out, b"-42 0 -9223372036854775808".to_vec());
}
