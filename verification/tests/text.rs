use glm_usage_tray::text::{to_decimal, to_zero_padded};

#[test]
fn decimal_of_small_numbers() {
    assert_eq!(to_decimal(0), "0");
    assert_eq!(to_decimal(7), "7");
    assert_eq!(to_decimal(10), "10");
    assert_eq!(to_decimal(1234567890), "1234567890");
}

#[test]
fn decimal_of_largest_number() {
    assert_eq!(to_decimal(u64::MAX), "18446744073709551615");
}

#[test]
fn decimal_agrees_with_std() {
    let mut n: u64 = 1;
    for _ in 0..64 {
        assert_eq!(to_decimal(n), n.to_string());
        assert_eq!(to_decimal(n - 1), (n - 1).to_string());
        n = n.wrapping_mul(3).wrapping_add(1);
    }
}

#[test]
fn zero_padding_fills_to_width() {
    assert_eq!(to_zero_padded(5, 2), "05");
    assert_eq!(to_zero_padded(0, 2), "00");
    assert_eq!(to_zero_padded(7, 4), "0007");
    assert_eq!(to_zero_padded(1970, 4), "1970");
}

#[test]
fn zero_padding_leaves_longer_numbers() {
    assert_eq!(to_zero_padded(12345, 4), "12345");
    assert_eq!(to_zero_padded(13, 2), "13");
    assert_eq!(to_zero_padded(9, 0), "9");
    assert_eq!(to_zero_padded(9, 1), "9");
}

#[test]
fn zero_padding_agrees_with_std() {
    for n in [0u64, 1, 9, 10, 99, 100, 999, 1000, 9999, 10000, 123456] {
        assert_eq!(to_zero_padded(n, 2), format!("{:02}", n));
        assert_eq!(to_zero_padded(n, 4), format!("{:04}", n));
    }
}
