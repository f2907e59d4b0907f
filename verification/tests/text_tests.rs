use ferrumdb::text::{digit, push_decimal};

fn decimal_of(n: u128) -> String {
    let mut out = String::new();
    push_decimal(&mut out, n);
    out
}

#[test]
fn digit_gives_each_numeral() {
    let expected = ['0', '1', '2', '3', '4', '5', '6', '7', '8', '9'];
    let mut d: u8 = 0;
    while d < 10 {
        assert_eq!(digit(d), expected[d as usize]);
        assert_eq!(digit(d + 10), expected[d as usize]);
        d += 1;
    }
}

#[test]
fn push_decimal_writes_zero() {
    assert_eq!(decimal_of(0), "0");
}

#[test]
fn push_decimal_writes_single_digits() {
    assert_eq!(decimal_of(7), "7");
    assert_eq!(decimal_of(9), "9");
}

#[test]
fn push_decimal_writes_tens_without_leading_zero() {
    assert_eq!(decimal_of(10), "10");
    assert_eq!(decimal_of(100), "100");
    assert_eq!(decimal_of(5432), "5432");
    assert_eq!(decimal_of(1234567890), "1234567890");
}

#[test]
fn push_decimal_writes_the_largest_number() {
    assert_eq!(decimal_of(u128::MAX), "340282366920938463463374607431768211455");
    assert_eq!(decimal_of(u128::MAX), u128::MAX.to_string());
}

#[test]
fn push_decimal_appends_to_what_is_there() {
    let mut out = String::from("n = ");
    push_decimal(&mut out, 42);
    assert_eq!(out, "n = 42");
}
