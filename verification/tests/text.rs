use transformer_rs::text::{decimal, push_decimal, to_hex_lower};

#[test]
fn decimal_writes_digits_without_leading_zeros() {
    assert_eq!(decimal(0), "0");
    assert_eq!(decimal(7), "7");
    assert_eq!(decimal(1030), "1030");
    assert_eq!(decimal(u64::MAX), "18446744073709551615");
}

#[test]
fn push_decimal_appends() {
    let mut s = String::from("layer ");
    push_decimal(&mut s, 42);
    assert_eq!(s, "layer 42");
}

#[test]
fn hex_is_two_lower_case_digits_per_byte() {
    assert_eq!(to_hex_lower(&[]), "");
    assert_eq!(to_hex_lower(&[0, 15, 16, 171, 255]), "000f10abff");
}
