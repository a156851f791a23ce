use infra_core::text::{decimal_i64, decimal_u64};

#[test]
fn decimal_of_unsigned_numbers() {
    assert_eq!(decimal_u64(0), "0");
    assert_eq!(decimal_u64(7), "7");
    assert_eq!(decimal_u64(10), "10");
    assert_eq!(decimal_u64(20012), "20012");
    assert_eq!(decimal_u64(1234567890), "1234567890");
    assert_eq!(decimal_u64(u64::MAX), "18446744073709551615");
}

#[test]
fn decimal_of_signed_numbers() {
    assert_eq!(decimal_i64(0), "0");
    assert_eq!(decimal_i64(5), "5");
    assert_eq!(decimal_i64(-5), "-5");
    assert_eq!(decimal_i64(-100), "-100");
    assert_eq!(decimal_i64(i64::MAX), "9223372036854775807");
    assert_eq!(decimal_i64(i64::MIN), "-9223372036854775808");
}

#[test]
fn decimal_agrees_with_the_standard_rendering() {
    for n in [0i64, 1, 9, 10, 11, 99, 100, 101, 999, 1000, -1, -9, -10, -99, -100, 32767, -32768] {
        assert_eq!(decimal_i64(n), n.to_string());
    }
}
