use clmm_core::error::ErrorCode;
use clmm_core::full_math::{mul_div_ceil_q64, mul_div_floor_q64, mul_shift_right_64, Q64};
use clmm_core::liquidity_math::{
    add_delta, get_delta_amount_0_unsigned, get_delta_amount_1_unsigned,
};
use clmm_core::position::calculate_latest_token_fees;
use clmm_core::tick::wrapping_sub_u128;

#[test]
fn mul_shift_exact() {
    assert_eq!(mul_shift_right_64(3 << 64, 5 << 64), 15 << 64);
    assert_eq!(mul_shift_right_64(Q64, 1), 1);
    assert_eq!(mul_shift_right_64(7, 5), 0);
    assert_eq!(mul_shift_right_64(u64::MAX as u128, u64::MAX as u128), 18446744073709551614);
}

#[test]
fn mul_div_floor_and_ceil() {
    assert_eq!(mul_div_floor_q64(7 * Q64 + 5, 3), Some(21));
    assert_eq!(mul_div_ceil_q64(7 * Q64 + 5, 3), Some(22));
    assert_eq!(mul_div_floor_q64(Q64, Q64), Some(Q64));
    assert_eq!(mul_div_ceil_q64(0, 12345), Some(0));
    // The 256-bit product of two maximal values cannot fit after the shift.
    assert_eq!(mul_div_floor_q64(u128::MAX, u128::MAX), None);
    assert_eq!(mul_div_ceil_q64(u128::MAX, u128::MAX), None);
}

#[test]
fn add_delta_cases() {
    assert_eq!(add_delta(10, 5), Ok(15));
    assert_eq!(add_delta(10, -10), Ok(0));
    assert_eq!(add_delta(10, -11), Err(ErrorCode::LiquiditySubValueError));
    assert_eq!(add_delta(u128::MAX, 1), Err(ErrorCode::MathOverflow));
    assert_eq!(add_delta(0, i128::MIN), Err(ErrorCode::LiquiditySubValueError));
    assert_eq!(add_delta(u128::MAX, -1), Ok(u128::MAX - 1));
}

#[test]
fn wrapping_sub_wraps() {
    assert_eq!(wrapping_sub_u128(5, 3), 2);
    assert_eq!(wrapping_sub_u128(3, 5), u128::MAX - 1);
    assert_eq!(wrapping_sub_u128(0, 1), u128::MAX);
}

#[test]
fn delta_amount_0_rounding() {
    // One unit of liquidity across [sqrt 1, sqrt 4) in plain integers:
    // amount0 = L*2^64*(1/sl - 1/su) = 2^64/2^64 - 2^64/2^65 rounded.
    let sl = 1u128 << 64;
    let su = 2u128 << 64;
    assert_eq!(get_delta_amount_0_unsigned(sl, su, 1, true), Ok(1));
    assert_eq!(get_delta_amount_0_unsigned(sl, su, 1, false), Ok(0));
    assert_eq!(get_delta_amount_0_unsigned(sl, su, 1000, true), Ok(500));
    // Liquidity beyond the 64-bit budget is a checked failure.
    assert_eq!(get_delta_amount_0_unsigned(sl, su, 1u128 << 64, true), Err(ErrorCode::MathOverflow));
}

#[test]
fn delta_amount_1_rounding() {
    let sl = 1u128 << 64;
    let su = 2u128 << 64;
    // amount1 = L * (su - sl) / 2^64 = L exactly.
    assert_eq!(get_delta_amount_1_unsigned(sl, su, 777, true), Ok(777));
    assert_eq!(get_delta_amount_1_unsigned(sl, sl + 1, 3, false), Ok(0));
    assert_eq!(get_delta_amount_1_unsigned(sl, sl + 1, 3, true), Ok(1));
    assert_eq!(
        get_delta_amount_1_unsigned(0, u128::MAX, u128::MAX, true),
        Err(ErrorCode::MathOverflow)
    );
}

#[test]
fn latest_token_fees_exact() {
    // One full Q64 unit of growth on a million liquidity owes a million.
    assert_eq!(calculate_latest_token_fees(0, 0, Q64, 1_000_000), Ok(1_000_000));
    assert_eq!(calculate_latest_token_fees(7, 0, 0, 1_000_000), Ok(7));
    // Wrapping difference: latest below last wraps around the accumulator.
    assert_eq!(calculate_latest_token_fees(0, u128::MAX, Q64 - 1, 1), Ok(1));
    // Owed totals past the u64 range are a checked failure.
    assert_eq!(
        calculate_latest_token_fees(u64::MAX, 0, Q64, 1),
        Err(ErrorCode::MathOverflow)
    );
    assert_eq!(
        calculate_latest_token_fees(0, 0, u128::MAX, u128::MAX),
        Err(ErrorCode::MathOverflow)
    );
}

#[test]
fn fee_monotone_across_growth() {
    // Across a non-decreasing accumulator the owed balance never drops.
    let mut owed = 0u64;
    let growths: [u128; 4] = [0, Q64 / 2, Q64, 3 * Q64];
    let mut last = 0u128;
    for g in growths {
        let next = calculate_latest_token_fees(owed, last, g, 1_000).unwrap();
        assert!(next >= owed);
        owed = next;
        last = g;
    }
    assert_eq!(owed, 3000);
}
