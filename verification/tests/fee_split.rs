use crypto_coffee::errors::ErrorCode;
use crypto_coffee::fees::{compute_split, resolve_fee};

#[test]
fn split_exact_small() {
    // total = 3 * 100 = 300, fee = 300 * 10 / 100 = 30, remainder = 270
    assert_eq!(compute_split(3, 100, 10), Ok((300, 30, 270)));
}

#[test]
fn split_floor_division() {
    // total = 7 * 3 = 21, fee = floor(21 * 33 / 100) = 6, remainder = 15
    assert_eq!(compute_split(7, 3, 33), Ok((21, 6, 15)));
}

#[test]
fn split_conserves_value() {
    let cases: Vec<(u64, u64, u64)> = vec![
        (1, 1, 0),
        (1, 1, 100),
        (13, 7, 1),
        (1000, 999, 50),
        (123456, 7890, 99),
        (u64::MAX, 1, 0),
    ];
    for (units, unit_price, fee_percentage) in cases {
        let (total, fee, creator) = compute_split(units, unit_price, fee_percentage).unwrap();
        assert_eq!(total, units * unit_price);
        assert_eq!(fee, (u128::from(total) * u128::from(fee_percentage) / 100) as u64);
        assert_eq!(fee + creator, total);
    }
}

#[test]
fn split_zero_percent_all_to_creator() {
    assert_eq!(compute_split(4, 25, 0), Ok((100, 0, 100)));
}

#[test]
fn split_hundred_percent_all_to_fee() {
    assert_eq!(compute_split(4, 25, 100), Ok((100, 100, 0)));
}

#[test]
fn split_overflow_in_total() {
    // u64::MAX * 2 exceeds the 64-bit range
    assert_eq!(compute_split(u64::MAX, 2, 10), Err(ErrorCode::ArithmeticOverflow));
}

#[test]
fn split_overflow_in_scaled_fee() {
    // the total fits, but total * 100 does not
    assert_eq!(compute_split(u64::MAX, 1, 100), Err(ErrorCode::ArithmeticOverflow));
}

#[test]
fn split_largest_total_at_zero_percent() {
    // the scaled intermediate is 0, so the largest possible total still splits
    assert_eq!(compute_split(u64::MAX, 1, 0), Ok((u64::MAX, 0, u64::MAX)));
}

#[test]
fn resolve_prefers_override() {
    assert_eq!(resolve_fee(20, Some(5)), 5);
    // the override wins even when it is higher than the default
    assert_eq!(resolve_fee(20, Some(95)), 95);
    assert_eq!(resolve_fee(20, Some(0)), 0);
}

#[test]
fn resolve_defaults_without_override() {
    assert_eq!(resolve_fee(20, None), 20);
    assert_eq!(resolve_fee(0, None), 0);
}
