//! Liquidity arithmetic: applying signed liquidity deltas with checked
//! overflow, and deriving token amounts from liquidity and a pair of
//! square-root prices with pool-favoring rounding.

use vstd::prelude::*;
use vstd::arithmetic::div_mod::{
    lemma_div_is_ordered, lemma_div_is_ordered_by_denominator, lemma_div_pos_is_pos,
};
use crate::error::ErrorCode;
use crate::full_math::{div_ceil, lemma_div_ceil_split, mul_div_ceil_q64, mul_div_floor_q64, Q64, U128_MAX};

verus! {

/// Largest value a `u64` can hold.
pub const U64_MAX: u64 = 0xffff_ffff_ffff_ffff;

/// Applies a signed liquidity delta to an unsigned liquidity amount.
/// Removal beyond the available amount fails with
/// `LiquiditySubValueError`; an addition past `u128::MAX` fails with
/// `MathOverflow`; otherwise the exact sum is returned.
pub fn add_delta(liquidity: u128, delta: i128) -> (r: Result<u128, ErrorCode>)
    ensures
        r == if (liquidity as int + delta as int) > U128_MAX as int {
            Err::<u128, ErrorCode>(ErrorCode::MathOverflow)
        } else if (liquidity as int + delta as int) < 0 {
            Err::<u128, ErrorCode>(ErrorCode::LiquiditySubValueError)
        } else {
            Ok::<u128, ErrorCode>((liquidity as int + delta as int) as u128)
        },
{
    if delta >= 0 {
        let d = delta as u128;
        if liquidity > U128_MAX - d {
            Err(ErrorCode::MathOverflow)
        } else {
            Ok(liquidity + d)
        }
    } else {
        let magnitude: u128 = ((-1 - delta) as u128) + 1;
        if magnitude > liquidity {
            Err(ErrorCode::LiquiditySubValueError)
        } else {
            Ok(liquidity - magnitude)
        }
    }
}

/// Ceiling division of two `u128` values, exact; the divisor must be
/// non-zero.
fn div_ceil_u128(x: u128, d: u128) -> (r: u128)
    requires
        d > 0,
        x < U128_MAX,
    ensures
        r as int == div_ceil(x as int, d as int),
        (x as int) / (d as int) <= r as int,
{
    proof {
        lemma_div_ceil_split(x as int, d as int);
        lemma_div_pos_is_pos(x as int, d as int);
        lemma_div_is_ordered(x as int, U128_MAX as int - 1, d as int);
        lemma_div_is_ordered_by_denominator(U128_MAX as int - 1, 1, d as int);
    }
    let q = x / d;
    if x % d == 0 {
        q
    } else {
        q + 1
    }
}

/// Token-0 amount owed by the user (rounded up) for `liquidity` between
/// two square-root prices: `ceil(L*2^64/sl) - floor(L*2^64/su)`.
pub open spec fn delta_amount_0_ceil(liquidity: int, sqrt_lower: int, sqrt_upper: int) -> int {
    div_ceil(liquidity * (Q64 as int), sqrt_lower) - (liquidity * (Q64 as int)) / sqrt_upper
}

/// Token-0 amount returned to the user (rounded down) for `liquidity`
/// between two square-root prices, floored at zero:
/// `max(0, floor(L*2^64/sl) - ceil(L*2^64/su))`.
pub open spec fn delta_amount_0_floor(liquidity: int, sqrt_lower: int, sqrt_upper: int) -> int {
    let d = (liquidity * (Q64 as int)) / sqrt_lower - div_ceil(liquidity * (Q64 as int), sqrt_upper);
    if d >= 0 {
        d
    } else {
        0
    }
}

/// Token-1 amount (rounded down) for `liquidity` between two square-root
/// prices: `floor(L * (su - sl) / 2^64)`.
pub open spec fn delta_amount_1_floor(liquidity: int, sqrt_lower: int, sqrt_upper: int) -> int {
    (liquidity * (sqrt_upper - sqrt_lower)) / (Q64 as int)
}

/// Token-1 amount (rounded up) for `liquidity` between two square-root
/// prices: `ceil(L * (su - sl) / 2^64)`.
pub open spec fn delta_amount_1_ceil(liquidity: int, sqrt_lower: int, sqrt_upper: int) -> int {
    div_ceil(liquidity * (sqrt_upper - sqrt_lower), Q64 as int)
}

/// Token-0 amount for a liquidity delta between two square-root prices,
/// rounded up when the user owes it and down when the pool returns it.
/// Fails with `MathOverflow` exactly when the liquidity or the resulting
/// amount does not fit the checked 64-bit budget.
pub fn get_delta_amount_0_unsigned(
    sqrt_ratio_a_x64: u128,
    sqrt_ratio_b_x64: u128,
    liquidity: u128,
    round_up: bool,
) -> (r: Result<u64, ErrorCode>)
    requires
        0 < sqrt_ratio_a_x64 < sqrt_ratio_b_x64,
    ensures
        ({
            let v = if round_up {
                delta_amount_0_ceil(
                    liquidity as int,
                    sqrt_ratio_a_x64 as int,
                    sqrt_ratio_b_x64 as int,
                )
            } else {
                delta_amount_0_floor(
                    liquidity as int,
                    sqrt_ratio_a_x64 as int,
                    sqrt_ratio_b_x64 as int,
                )
            };
            &&& r == if liquidity > U64_MAX as u128 || v > U64_MAX as int {
                Err::<u64, ErrorCode>(ErrorCode::MathOverflow)
            } else {
                Ok::<u64, ErrorCode>(v as u64)
            }
            &&& (r matches Ok(a) ==> a as int == v)
        }),
{
    if liquidity > U64_MAX as u128 {
        return Err(ErrorCode::MathOverflow);
    }
    let q: u128 = liquidity * Q64;
    proof {
        lemma_div_is_ordered(0, q as int, sqrt_ratio_a_x64 as int);
        lemma_div_is_ordered(0, q as int, sqrt_ratio_b_x64 as int);
        lemma_div_is_ordered_by_denominator(
            q as int,
            sqrt_ratio_a_x64 as int,
            sqrt_ratio_b_x64 as int,
        );
        lemma_div_is_ordered(q as int, U128_MAX as int - 1, sqrt_ratio_a_x64 as int);
        lemma_div_is_ordered_by_denominator(U128_MAX as int - 1, 1, sqrt_ratio_a_x64 as int);
    }
    if round_up {
        proof {
            lemma_div_ceil_split(q as int, sqrt_ratio_a_x64 as int);
        }
        let hi = div_ceil_u128(q, sqrt_ratio_a_x64);
        let lo = q / sqrt_ratio_b_x64;
        let amount = hi - lo;
        if amount > U64_MAX as u128 {
            Err(ErrorCode::MathOverflow)
        } else {
            Ok(amount as u64)
        }
    } else {
        let hi = q / sqrt_ratio_a_x64;
        let lo = div_ceil_u128(q, sqrt_ratio_b_x64);
        let amount = if hi >= lo {
            hi - lo
        } else {
            0
        };
        if amount > U64_MAX as u128 {
            Err(ErrorCode::MathOverflow)
        } else {
            Ok(amount as u64)
        }
    }
}

/// Token-1 amount for a liquidity delta between two square-root prices,
/// rounded up when the user owes it and down when the pool returns it.
/// Fails with `MathOverflow` exactly when the result does not fit in a
/// `u64`.
pub fn get_delta_amount_1_unsigned(
    sqrt_ratio_a_x64: u128,
    sqrt_ratio_b_x64: u128,
    liquidity: u128,
    round_up: bool,
) -> (r: Result<u64, ErrorCode>)
    requires
        sqrt_ratio_a_x64 <= sqrt_ratio_b_x64,
    ensures
        ({
            let v = if round_up {
                delta_amount_1_ceil(
                    liquidity as int,
                    sqrt_ratio_a_x64 as int,
                    sqrt_ratio_b_x64 as int,
                )
            } else {
                delta_amount_1_floor(
                    liquidity as int,
                    sqrt_ratio_a_x64 as int,
                    sqrt_ratio_b_x64 as int,
                )
            };
            &&& r == if v > U64_MAX as int {
                Err::<u64, ErrorCode>(ErrorCode::MathOverflow)
            } else {
                Ok::<u64, ErrorCode>(v as u64)
            }
            &&& (r matches Ok(a) ==> a as int == v)
        }),
{
    let diff: u128 = sqrt_ratio_b_x64 - sqrt_ratio_a_x64;
    let amount = if round_up {
        mul_div_ceil_q64(liquidity, diff)
    } else {
        mul_div_floor_q64(liquidity, diff)
    };
    match amount {
        None => Err(ErrorCode::MathOverflow),
        Some(v) => {
            if v > U64_MAX as u128 {
                Err(ErrorCode::MathOverflow)
            } else {
                Ok(v as u64)
            }
        },
    }
}

} // verus!
