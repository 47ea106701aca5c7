use regtest_reconcile::amount::{format_btc, format_signed_btc, push_decimal};

#[test]
fn whole_amount_has_no_point() {
    assert_eq!(format_btc(5_000_000_000), "50");
    assert_eq!(format_btc(0), "0");
}

#[test]
fn fraction_drops_trailing_zeros() {
    assert_eq!(format_btc(2_999_990_000), "29.9999");
    assert_eq!(format_btc(10_000), "0.0001");
    assert_eq!(format_btc(1), "0.00000001");
    assert_eq!(format_btc(12_345_678_901), "123.45678901");
    assert_eq!(format_btc(150_000_000), "1.5");
}

#[test]
fn largest_amount_formats() {
    assert_eq!(format_btc(u64::MAX as u128), "184467440737.09551615");
}

#[test]
fn signed_amounts() {
    assert_eq!(format_signed_btc(-10_000), "-0.0001");
    assert_eq!(format_signed_btc(-5_000_000_000), "-50");
    assert_eq!(format_signed_btc(10_000), "0.0001");
    assert_eq!(format_signed_btc(0), "0");
}

#[test]
fn decimal_digits_append() {
    let mut s = String::from("h=");
    push_decimal(&mut s, 102);
    assert_eq!(s, "h=102");
    let mut z = String::new();
    push_decimal(&mut z, 0);
    assert_eq!(z, "0");
}
