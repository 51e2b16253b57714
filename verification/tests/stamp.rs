use module_cache::stamp::{self_mtime, to_decimal, Mtime};

#[test]
fn decimal_of_zero() {
    assert_eq!(to_decimal(0), "0");
}

#[test]
fn decimal_of_single_digits() {
    for d in 0..10u128 {
        assert_eq!(to_decimal(d), format!("{}", d));
    }
}

#[test]
fn decimal_of_round_numbers() {
    assert_eq!(to_decimal(10), "10");
    assert_eq!(to_decimal(100), "100");
    assert_eq!(to_decimal(1_000_000), "1000000");
}

#[test]
fn decimal_of_a_timestamp() {
    assert_eq!(to_decimal(1_565_000_123_456), "1565000123456");
}

#[test]
fn decimal_of_the_largest_number() {
    assert_eq!(to_decimal(u128::MAX), "340282366920938463463374607431768211455");
}

#[test]
fn decimal_agrees_with_the_standard_formatting() {
    let mut n: u128 = 1;
    for _ in 0..120 {
        assert_eq!(to_decimal(n), format!("{}", n));
        assert_eq!(to_decimal(n - 1), format!("{}", n - 1));
        n = n.wrapping_mul(3).wrapping_add(7);
    }
}

#[test]
fn stamp_of_a_time_after_1970() {
    assert_eq!(self_mtime(Some(Mtime::After(1_565_000_123_456))), "1565000123456");
}

#[test]
fn stamp_of_a_time_before_1970() {
    assert_eq!(self_mtime(Some(Mtime::Before(86_400_000))), "m86400000");
}

#[test]
fn stamp_of_the_start_of_1970() {
    assert_eq!(self_mtime(Some(Mtime::After(0))), "0");
    assert_eq!(self_mtime(Some(Mtime::Before(0))), "m0");
}

#[test]
fn stamp_of_no_time() {
    assert_eq!(self_mtime(None), "no-mtime");
}
