use bid_auction::fee::{
    fee_decimal_to_uint128, get_owner_fee_amount, FEE_DIVISOR, FEE_SCALE_FACTOR, MAX_FEE_ATOMICS,
    RATE_SCALE,
};
use bid_auction::text::decimal_string;
use bid_auction::{ContractError, FeeRate};

fn one_percent() -> FeeRate {
    FeeRate { atomics: MAX_FEE_ATOMICS }
}

#[test]
fn one_percent_of_ten_thousand_is_one_hundred() {
    assert_eq!(get_owner_fee_amount(10_000, one_percent()), Ok(100));
}

#[test]
fn zero_rate_takes_nothing() {
    assert_eq!(get_owner_fee_amount(10_000, FeeRate { atomics: 0 }), Ok(0));
    assert_eq!(get_owner_fee_amount(u128::MAX, FeeRate { atomics: 0 }), Ok(0));
    assert_eq!(get_owner_fee_amount(0, FeeRate { atomics: 0 }), Ok(0));
}

#[test]
fn fee_is_floored() {
    assert_eq!(get_owner_fee_amount(99, one_percent()), Ok(0));
    assert_eq!(get_owner_fee_amount(100, one_percent()), Ok(1));
    assert_eq!(get_owner_fee_amount(199, one_percent()), Ok(1));
    assert_eq!(get_owner_fee_amount(200, one_percent()), Ok(2));
}

#[test]
fn fee_keeps_the_precision_of_the_rate() {
    // 0.015 %, a rate below one basis point and a half
    let rate = FeeRate { atomics: 150_000_000_000_000 };
    assert_eq!(get_owner_fee_amount(1_000_000, rate), Ok(150));
    assert_eq!(get_owner_fee_amount(10_000, rate), Ok(1));
    // one atomic unit of rate on 10^18 is one unit of fee
    assert_eq!(get_owner_fee_amount(RATE_SCALE, FeeRate { atomics: 1 }), Ok(1));
    assert_eq!(get_owner_fee_amount(RATE_SCALE - 1, FeeRate { atomics: 1 }), Ok(0));
}

#[test]
fn fee_on_the_largest_amount_needs_the_wide_product() {
    assert_eq!(get_owner_fee_amount(u128::MAX, one_percent()), Ok(u128::MAX / 100));
}

#[test]
fn scaled_rate_is_atomics_times_basis_points() {
    assert_eq!(fee_decimal_to_uint128(one_percent()), Ok(100_000_000_000_000_000_000));
    assert_eq!(fee_decimal_to_uint128(FeeRate { atomics: 0 }), Ok(0));
    assert_eq!(fee_decimal_to_uint128(FeeRate { atomics: 7 }), Ok(70_000));
}

#[test]
fn scaled_rate_that_leaves_128_bits_is_an_overflow() {
    let largest = u128::MAX / FEE_SCALE_FACTOR;
    assert_eq!(fee_decimal_to_uint128(FeeRate { atomics: largest }), Ok(largest * 10_000));
    assert_eq!(
        fee_decimal_to_uint128(FeeRate { atomics: largest + 1 }),
        Err(ContractError::ArithmeticOverflow)
    );
    assert_eq!(
        get_owner_fee_amount(1, FeeRate { atomics: largest + 1 }),
        Err(ContractError::ArithmeticOverflow)
    );
}

#[test]
fn fee_that_leaves_128_bits_is_an_overflow() {
    // a rate of two wholes on the largest amount
    let rate = FeeRate { atomics: 2 * RATE_SCALE };
    assert_eq!(get_owner_fee_amount(u128::MAX, rate), Err(ContractError::ArithmeticOverflow));
    assert_eq!(get_owner_fee_amount(u128::MAX / 2, rate), Ok(u128::MAX - 1));
}

#[test]
fn divisor_is_the_product_of_both_scales() {
    assert_eq!(FEE_DIVISOR, RATE_SCALE * FEE_SCALE_FACTOR);
    assert_eq!(MAX_FEE_ATOMICS * 100, RATE_SCALE);
}

#[test]
fn rate_limit_is_one_percent() {
    assert!(FeeRate { atomics: MAX_FEE_ATOMICS }.is_within_limit());
    assert!(!FeeRate { atomics: MAX_FEE_ATOMICS + 1 }.is_within_limit());
    assert!(FeeRate { atomics: 0 }.is_zero());
    assert!(!FeeRate { atomics: 1 }.is_zero());
}

#[test]
fn amounts_are_written_in_decimal() {
    assert_eq!(decimal_string(0), "0");
    assert_eq!(decimal_string(7), "7");
    assert_eq!(decimal_string(10), "10");
    assert_eq!(decimal_string(100), "100");
    assert_eq!(decimal_string(1_234_567_890), "1234567890");
    assert_eq!(decimal_string(u128::MAX), u128::MAX.to_string());
}
