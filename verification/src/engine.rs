//! The liquidity engine: given a signed liquidity delta and a range, it
//! computes the token amounts the change requires or returns, enforces
//! the caller's slippage bounds, and updates the tick ledger, the shared
//! range position and the pool aggregates — all or nothing.

use vstd::prelude::*;
use crate::error::ErrorCode;
use crate::liquidity_math::{
    add_delta, delta_amount_0_ceil, delta_amount_0_floor, delta_amount_1_ceil,
    delta_amount_1_floor, get_delta_amount_0_unsigned, get_delta_amount_1_unsigned, U64_MAX,
};
use crate::full_math::U128_MAX;
use crate::pool::{PoolState, PoolStatusBitIndex};
use crate::position::{
    calculate_latest_token_fees, computed_reward_updates, growth_delta_spec,
    PersonalPositionState, ProtocolPositionState,
};
use crate::tick::{fee_growth_inside_spec, get_fee_growth_inside, TickState, I128_MAX, I128_MIN};
use crate::tick_math::{get_sqrt_price_at_tick, sqrt_price_spec, MAX_TICK, MIN_TICK};

verus! {

/// Notification record reported when a position's liquidity grows.
#[derive(Clone, Copy, PartialEq, Eq, Structural, Debug)]
pub struct IncreaseLiquidityEvent {
    /// Ownership token of the position.
    pub position_nft_mint: u64,
    /// Liquidity added.
    pub liquidity: u128,
    /// Token-0 amount the user paid.
    pub amount_0: u64,
    /// Token-1 amount the user paid.
    pub amount_1: u64,
}

/// Token-0 amount for a liquidity change of magnitude `mag`: due when
/// the current price is below the range's upper bound, over the part of
/// the range above the price.
pub open spec fn amount_0_spec(sp: int, sl: int, su: int, mag: int, round_up: bool) -> int {
    if sp < sl {
        if round_up {
            delta_amount_0_ceil(mag, sl, su)
        } else {
            delta_amount_0_floor(mag, sl, su)
        }
    } else if sp < su {
        if round_up {
            delta_amount_0_ceil(mag, sp, su)
        } else {
            delta_amount_0_floor(mag, sp, su)
        }
    } else {
        0
    }
}

/// Token-1 amount for a liquidity change of magnitude `mag`: due when
/// the current price is above the range's lower bound, over the part of
/// the range below the price.
pub open spec fn amount_1_spec(sp: int, sl: int, su: int, mag: int, round_up: bool) -> int {
    if sp < sl {
        0
    } else if sp < su {
        if round_up {
            delta_amount_1_ceil(mag, sl, sp)
        } else {
            delta_amount_1_floor(mag, sl, sp)
        }
    } else {
        if round_up {
            delta_amount_1_ceil(mag, sl, su)
        } else {
            delta_amount_1_floor(mag, sl, su)
        }
    }
}

/// Whether both token amounts for the change are computable within the
/// checked 64-bit budget.
pub open spec fn amounts_ok(sp: int, sl: int, su: int, mag: int, round_up: bool) -> bool {
    &&& sl < su
    &&& (sp < su ==> mag <= U64_MAX as int)
    &&& amount_0_spec(sp, sl, su, mag, round_up) <= U64_MAX as int
    &&& amount_1_spec(sp, sl, su, mag, round_up) <= U64_MAX as int
}

/// Whether the computed amounts respect the caller's bounds: maximums
/// when adding liquidity, minimums when removing.
pub open spec fn slippage_ok(delta: int, a0: int, a1: int, limit_0: int, limit_1: int) -> bool {
    if delta >= 0 {
        a0 <= limit_0 && a1 <= limit_1
    } else {
        a0 >= limit_0 && a1 >= limit_1
    }
}

/// Whether every ledger field stays representable after applying the
/// delta: both ticks' gross and net liquidity, the range position's
/// liquidity, and — when the price is inside the range — the pool's
/// active liquidity.
pub open spec fn ledger_ok(
    pool: PoolState,
    tick_lower: TickState,
    tick_upper: TickState,
    protocol_position: ProtocolPositionState,
    delta: int,
    in_range: bool,
) -> bool {
    &&& 0 <= tick_lower.liquidity_gross as int + delta <= U128_MAX as int
    &&& 0 <= tick_upper.liquidity_gross as int + delta <= U128_MAX as int
    &&& I128_MIN as int <= tick_lower.liquidity_net as int + delta <= I128_MAX as int
    &&& I128_MIN as int <= tick_upper.liquidity_net as int - delta <= I128_MAX as int
    &&& 0 <= protocol_position.liquidity as int + delta <= U128_MAX as int
    &&& (in_range ==> 0 <= pool.liquidity as int + delta <= U128_MAX as int)
}

/// The fee-growth-outside snapshot a tick holds after a liquidity
/// update: first touch pins it to the global accumulator when the
/// current tick is at or above the tick, and to zero otherwise.
pub open spec fn outside_after_update(
    gross_before: int,
    tick: int,
    tick_current: int,
    global: int,
    outside_before: int,
) -> int {
    if gross_before == 0 {
        if tick <= tick_current {
            global
        } else {
            0
        }
    } else {
        outside_before
    }
}

/// Token amounts for a liquidity change of magnitude `mag` at current
/// price `sp`, rounded by direction. Fails with `MathOverflow` exactly
/// when the magnitude or an amount exceeds the checked 64-bit budget.
fn compute_amounts(sp: u128, sqrt_lower: u128, sqrt_upper: u128, mag: u128, round_up: bool) -> (r:
    Result<(u64, u64), ErrorCode>)
    requires
        0 < sqrt_lower < sqrt_upper,
    ensures
        ({
            let a0 = amount_0_spec(
                sp as int,
                sqrt_lower as int,
                sqrt_upper as int,
                mag as int,
                round_up,
            );
            let a1 = amount_1_spec(
                sp as int,
                sqrt_lower as int,
                sqrt_upper as int,
                mag as int,
                round_up,
            );
            &&& (r is Ok <==> (sp < sqrt_upper ==> mag <= U64_MAX as u128) && a0 <= U64_MAX as int
                && a1 <= U64_MAX as int)
            &&& (r matches Ok(v) ==> v.0 as int == a0 && v.1 as int == a1)
            &&& (r is Err ==> r == Err::<(u64, u64), ErrorCode>(ErrorCode::MathOverflow))
        }),
{
    let amount_0: u64 = if sp < sqrt_lower {
        match get_delta_amount_0_unsigned(sqrt_lower, sqrt_upper, mag, round_up) {
            Ok(v) => v,
            Err(e) => {
                return Err(e);
            },
        }
    } else if sp < sqrt_upper {
        match get_delta_amount_0_unsigned(sp, sqrt_upper, mag, round_up) {
            Ok(v) => v,
            Err(e) => {
                return Err(e);
            },
        }
    } else {
        0
    };
    let amount_1: u64 = if sp < sqrt_lower {
        0
    } else if sp < sqrt_upper {
        match get_delta_amount_1_unsigned(sqrt_lower, sp, mag, round_up) {
            Ok(v) => v,
            Err(e) => {
                return Err(e);
            },
        }
    } else {
        match get_delta_amount_1_unsigned(sqrt_lower, sqrt_upper, mag, round_up) {
            Ok(v) => v,
            Err(e) => {
                return Err(e);
            },
        }
    };
    Ok((amount_0, amount_1))
}

/// Applies a signed liquidity delta to a range: computes the token
/// amounts, enforces the slippage bounds, updates both boundary ticks,
/// recomputes the range's fee growth inside, and updates the range
/// position and the pool's active liquidity. Either every record is
/// updated or, on any failure, none is.
#[verifier::rlimit(100)]
pub fn modify_position(
    pool: &mut PoolState,
    tick_lower_state: &mut TickState,
    tick_upper_state: &mut TickState,
    protocol_position: &mut ProtocolPositionState,
    liquidity_delta: i128,
    amount_0_limit: u64,
    amount_1_limit: u64,
) -> (r: Result<(u64, u64), ErrorCode>)
    requires
        MIN_TICK <= old(tick_lower_state).tick < old(tick_upper_state).tick <= MAX_TICK,
        old(protocol_position).tick_lower_index == old(tick_lower_state).tick,
        old(protocol_position).tick_upper_index == old(tick_upper_state).tick,
    ensures
        r is Err ==> *final(pool) == *old(pool) && *final(tick_lower_state) == *old(tick_lower_state) && *final(tick_upper_state) == *old(tick_upper_state) && *final(protocol_position)
            == *old(protocol_position),
        r != Err::<(u64, u64), ErrorCode>(ErrorCode::NotApproved) && r != Err::<
            (u64, u64),
            ErrorCode,
        >(ErrorCode::PriceOutOfBounds),
        ({
            let sl = sqrt_price_spec(old(tick_lower_state).tick as int);
            let su = sqrt_price_spec(old(tick_upper_state).tick as int);
            let sp = old(pool).sqrt_price_x64 as int;
            let delta = liquidity_delta as int;
            let round_up = liquidity_delta >= 0;
            let mag = if delta >= 0 {
                delta
            } else {
                -delta
            };
            let a0 = amount_0_spec(sp, sl, su, mag, round_up);
            let a1 = amount_1_spec(sp, sl, su, mag, round_up);
            let in_range = sl <= sp < su;
            &&& (r is Ok <==> amounts_ok(sp, sl, su, mag, round_up) && slippage_ok(
                delta,
                a0,
                a1,
                amount_0_limit as int,
                amount_1_limit as int,
            ) && ledger_ok(
                *old(pool),
                *old(tick_lower_state),
                *old(tick_upper_state),
                *old(protocol_position),
                delta,
                in_range,
            ))
            &&& (amounts_ok(sp, sl, su, mag, round_up) && !slippage_ok(
                delta,
                a0,
                a1,
                amount_0_limit as int,
                amount_1_limit as int,
            ) ==> r == Err::<(u64, u64), ErrorCode>(ErrorCode::PriceSlippageExceeded))
            &&& (amounts_ok(sp, sl, su, mag, round_up) && slippage_ok(
                delta,
                a0,
                a1,
                amount_0_limit as int,
                amount_1_limit as int,
            ) && delta < 0 && old(tick_lower_state).liquidity_gross as int + delta < 0 ==> r
                == Err::<(u64, u64), ErrorCode>(ErrorCode::LiquiditySubValueError))
            &&& (amounts_ok(sp, sl, su, mag, round_up) && slippage_ok(
                delta,
                a0,
                a1,
                amount_0_limit as int,
                amount_1_limit as int,
            ) && delta < 0 && 0 <= old(tick_lower_state).liquidity_gross as int + delta
                && I128_MIN as int <= old(tick_lower_state).liquidity_net as int + delta && old(tick_upper_state).liquidity_gross as int + delta < 0 ==> r == Err::<(u64, u64), ErrorCode>(
                ErrorCode::LiquiditySubValueError,
            ))
            &&& (amounts_ok(sp, sl, su, mag, round_up) && slippage_ok(
                delta,
                a0,
                a1,
                amount_0_limit as int,
                amount_1_limit as int,
            ) && delta < 0 && 0 <= old(tick_lower_state).liquidity_gross as int + delta
                && I128_MIN as int <= old(tick_lower_state).liquidity_net as int + delta && 0 <= old(tick_upper_state).liquidity_gross as int + delta && old(tick_upper_state).liquidity_net as int - delta
                <= I128_MAX as int && old(protocol_position).liquidity as int + delta < 0 ==> r
                == Err::<(u64, u64), ErrorCode>(ErrorCode::LiquiditySubValueError))
            &&& (r matches Ok(amounts) ==> {
                &&& amounts.0 as int == a0
                &&& amounts.1 as int == a1
                &&& final(tick_lower_state).tick == old(tick_lower_state).tick
                &&& final(tick_upper_state).tick == old(tick_upper_state).tick
                &&& final(tick_lower_state).liquidity_gross as int == old(tick_lower_state).liquidity_gross as int + delta
                &&& final(tick_upper_state).liquidity_gross as int == old(tick_upper_state).liquidity_gross as int + delta
                &&& final(tick_lower_state).liquidity_net as int == old(tick_lower_state).liquidity_net as int + delta
                &&& final(tick_upper_state).liquidity_net as int == old(tick_upper_state).liquidity_net as int - delta
                &&& final(tick_lower_state).fee_growth_outside_0_x64 as int == outside_after_update(
                    old(tick_lower_state).liquidity_gross as int,
                    old(tick_lower_state).tick as int,
                    old(pool).tick_current as int,
                    old(pool).fee_growth_global_0_x64 as int,
                    old(tick_lower_state).fee_growth_outside_0_x64 as int,
                )
                &&& final(tick_lower_state).fee_growth_outside_1_x64 as int == outside_after_update(
                    old(tick_lower_state).liquidity_gross as int,
                    old(tick_lower_state).tick as int,
                    old(pool).tick_current as int,
                    old(pool).fee_growth_global_1_x64 as int,
                    old(tick_lower_state).fee_growth_outside_1_x64 as int,
                )
                &&& final(tick_upper_state).fee_growth_outside_0_x64 as int == outside_after_update(
                    old(tick_upper_state).liquidity_gross as int,
                    old(tick_upper_state).tick as int,
                    old(pool).tick_current as int,
                    old(pool).fee_growth_global_0_x64 as int,
                    old(tick_upper_state).fee_growth_outside_0_x64 as int,
                )
                &&& final(tick_upper_state).fee_growth_outside_1_x64 as int == outside_after_update(
                    old(tick_upper_state).liquidity_gross as int,
                    old(tick_upper_state).tick as int,
                    old(pool).tick_current as int,
                    old(pool).fee_growth_global_1_x64 as int,
                    old(tick_upper_state).fee_growth_outside_1_x64 as int,
                )
                &&& final(protocol_position).liquidity as int == old(protocol_position).liquidity as int + delta
                &&& final(protocol_position).fee_growth_inside_0_last_x64 as int
                    == fee_growth_inside_spec(
                    final(tick_lower_state).tick as int,
                    final(tick_lower_state).fee_growth_outside_0_x64 as int,
                    final(tick_upper_state).tick as int,
                    final(tick_upper_state).fee_growth_outside_0_x64 as int,
                    old(pool).tick_current as int,
                    old(pool).fee_growth_global_0_x64 as int,
                )
                &&& final(protocol_position).fee_growth_inside_1_last_x64 as int
                    == fee_growth_inside_spec(
                    final(tick_lower_state).tick as int,
                    final(tick_lower_state).fee_growth_outside_1_x64 as int,
                    final(tick_upper_state).tick as int,
                    final(tick_upper_state).fee_growth_outside_1_x64 as int,
                    old(pool).tick_current as int,
                    old(pool).fee_growth_global_1_x64 as int,
                )
                &&& final(protocol_position).pool_id == old(protocol_position).pool_id
                &&& final(protocol_position).tick_lower_index == old(protocol_position).tick_lower_index
                &&& final(protocol_position).tick_upper_index == old(protocol_position).tick_upper_index
                &&& final(protocol_position).reward_growth_inside == old(protocol_position).reward_growth_inside
                &&& final(pool).liquidity as int == if in_range {
                    old(pool).liquidity as int + delta
                } else {
                    old(pool).liquidity as int
                }
                &&& *final(pool) == (PoolState { liquidity: final(pool).liquidity, ..*old(pool) })
            })
        }),
{
    let tick_lower = tick_lower_state.tick;
    let tick_upper = tick_upper_state.tick;
    let sqrt_lower = match get_sqrt_price_at_tick(tick_lower) {
        Ok(v) => v,
        Err(e) => {
            return Err(e);
        },
    };
    let sqrt_upper = match get_sqrt_price_at_tick(tick_upper) {
        Ok(v) => v,
        Err(e) => {
            return Err(e);
        },
    };
    if sqrt_lower >= sqrt_upper {
        return Err(ErrorCode::MathOverflow);
    }
    let sp = pool.sqrt_price_x64;
    let round_up = liquidity_delta >= 0;
    let mag: u128 = if liquidity_delta >= 0 {
        liquidity_delta as u128
    } else {
        ((-1 - liquidity_delta) as u128) + 1
    };
    let (amount_0, amount_1) = match compute_amounts(sp, sqrt_lower, sqrt_upper, mag, round_up) {
        Ok(v) => v,
        Err(e) => {
            return Err(e);
        },
    };
    proof {
        let sl = sqrt_price_spec(old(tick_lower_state).tick as int);
        let su = sqrt_price_spec(old(tick_upper_state).tick as int);
        let spi = old(pool).sqrt_price_x64 as int;
        assert(sqrt_lower as int == sl);
        assert(sqrt_upper as int == su);
        assert(sp as int == spi);
        assert(mag as int == if liquidity_delta as int >= 0 {
            liquidity_delta as int
        } else {
            -(liquidity_delta as int)
        });
        assert(amount_0 as int == amount_0_spec(spi, sl, su, mag as int, round_up));
        assert(amount_1 as int == amount_1_spec(spi, sl, su, mag as int, round_up));
    }
    if liquidity_delta >= 0 {
        if amount_0 > amount_0_limit || amount_1 > amount_1_limit {
            return Err(ErrorCode::PriceSlippageExceeded);
        }
    } else {
        if amount_0 < amount_0_limit || amount_1 < amount_1_limit {
            return Err(ErrorCode::PriceSlippageExceeded);
        }
    }
    let mut tick_lower_new = *tick_lower_state;
    match tick_lower_new.update(
        pool.tick_current,
        liquidity_delta,
        pool.fee_growth_global_0_x64,
        pool.fee_growth_global_1_x64,
        false,
    ) {
        Ok(_) => (),
        Err(e) => {
            return Err(e);
        },
    }
    let mut tick_upper_new = *tick_upper_state;
    match tick_upper_new.update(
        pool.tick_current,
        liquidity_delta,
        pool.fee_growth_global_0_x64,
        pool.fee_growth_global_1_x64,
        true,
    ) {
        Ok(_) => (),
        Err(e) => {
            return Err(e);
        },
    }
    let (fee_growth_inside_0, fee_growth_inside_1) = get_fee_growth_inside(
        &tick_lower_new,
        &tick_upper_new,
        pool.tick_current,
        pool.fee_growth_global_0_x64,
        pool.fee_growth_global_1_x64,
    );
    let protocol_liquidity_new = match add_delta(protocol_position.liquidity, liquidity_delta) {
        Ok(v) => v,
        Err(e) => {
            return Err(e);
        },
    };
    let in_range = sqrt_lower <= sp && sp < sqrt_upper;
    let pool_liquidity_new = if in_range {
        match add_delta(pool.liquidity, liquidity_delta) {
            Ok(v) => v,
            Err(e) => {
                return Err(e);
            },
        }
    } else {
        pool.liquidity
    };
    *tick_lower_state = tick_lower_new;
    *tick_upper_state = tick_upper_new;
    protocol_position.liquidity = protocol_liquidity_new;
    protocol_position.fee_growth_inside_0_last_x64 = fee_growth_inside_0;
    protocol_position.fee_growth_inside_1_last_x64 = fee_growth_inside_1;
    pool.liquidity = pool_liquidity_new;
    Ok((amount_0, amount_1))
}

/// The token-0 fee growth inside a range after this call's tick
/// updates, as a function of the records before the call.
pub open spec fn fee_growth_inside_after_update(
    tick_lower: TickState,
    tick_upper: TickState,
    tick_current: int,
    global: int,
    lower_outside_before: int,
    upper_outside_before: int,
) -> int {
    fee_growth_inside_spec(
        tick_lower.tick as int,
        outside_after_update(
            tick_lower.liquidity_gross as int,
            tick_lower.tick as int,
            tick_current,
            global,
            lower_outside_before,
        ),
        tick_upper.tick as int,
        outside_after_update(
            tick_upper.liquidity_gross as int,
            tick_upper.tick as int,
            tick_current,
            global,
            upper_outside_before,
        ),
        tick_current,
        global,
    )
}

/// Whether the position's fee and reward settlement for this call, and
/// its grown liquidity, all fit their checked ranges.
pub open spec fn settlement_ok(
    pool: PoolState,
    tick_lower: TickState,
    tick_upper: TickState,
    protocol_position: ProtocolPositionState,
    personal_position: PersonalPositionState,
    liquidity: int,
) -> bool {
    let f0 = fee_growth_inside_after_update(
        tick_lower,
        tick_upper,
        pool.tick_current as int,
        pool.fee_growth_global_0_x64 as int,
        tick_lower.fee_growth_outside_0_x64 as int,
        tick_upper.fee_growth_outside_0_x64 as int,
    );
    let f1 = fee_growth_inside_after_update(
        tick_lower,
        tick_upper,
        pool.tick_current as int,
        pool.fee_growth_global_1_x64 as int,
        tick_lower.fee_growth_outside_1_x64 as int,
        tick_upper.fee_growth_outside_1_x64 as int,
    );
    &&& personal_position.token_fees_owed_0 as int + growth_delta_spec(
        f0,
        personal_position.fee_growth_inside_0_last_x64 as int,
        personal_position.liquidity as int,
    ) <= U64_MAX as int
    &&& personal_position.token_fees_owed_1 as int + growth_delta_spec(
        f1,
        personal_position.fee_growth_inside_1_last_x64 as int,
        personal_position.liquidity as int,
    ) <= U64_MAX as int
    &&& (forall|i: int|
        0 <= i < personal_position.reward_infos@.len()
            ==> personal_position.reward_infos@[i].reward_amount_owed as int + growth_delta_spec(
            protocol_position.reward_growth_inside@[i] as int,
            personal_position.reward_infos@[i].growth_inside_last_x64 as int,
            personal_position.liquidity as int,
        ) <= U64_MAX as int)
    &&& personal_position.liquidity as int + liquidity <= U128_MAX as int
}

/// Increases a personal position's liquidity: checks the pool's gate,
/// computes the required token amounts and enforces the caller's maximum
/// amounts, settles the position's fees and rewards against the latest
/// growth inside its range — against the liquidity in effect during the
/// closed interval — and runs the liquidity engine. Either every record
/// is updated or, on any failure, none is.
#[verifier::rlimit(100)]
pub fn increase_liquidity(
    pool: &mut PoolState,
    tick_lower_state: &mut TickState,
    tick_upper_state: &mut TickState,
    protocol_position: &mut ProtocolPositionState,
    personal_position: &mut PersonalPositionState,
    liquidity: u128,
    amount_0_max: u64,
    amount_1_max: u64,
) -> (r: Result<IncreaseLiquidityEvent, ErrorCode>)
    requires
        MIN_TICK <= old(tick_lower_state).tick < old(tick_upper_state).tick <= MAX_TICK,
        old(protocol_position).tick_lower_index == old(tick_lower_state).tick,
        old(protocol_position).tick_upper_index == old(tick_upper_state).tick,
        old(personal_position).tick_lower_index == old(tick_lower_state).tick,
        old(personal_position).tick_upper_index == old(tick_upper_state).tick,
        old(personal_position).reward_infos@.len() == old(protocol_position).reward_growth_inside@.len(),
    ensures
        r == Err::<IncreaseLiquidityEvent, ErrorCode>(ErrorCode::NotApproved) <==> !old(pool).spec_status(PoolStatusBitIndex::OpenPositionOrIncreaseLiquidity),
        r is Err ==> *final(pool) == *old(pool) && *final(tick_lower_state) == *old(tick_lower_state) && *final(tick_upper_state) == *old(tick_upper_state) && *final(protocol_position)
            == *old(protocol_position) && *final(personal_position) == *old(personal_position),
        ({
            let sl = sqrt_price_spec(old(tick_lower_state).tick as int);
            let su = sqrt_price_spec(old(tick_upper_state).tick as int);
            let sp = old(pool).sqrt_price_x64 as int;
            let in_range = sl <= sp < su;
            let a0 = amount_0_spec(sp, sl, su, liquidity as int, true);
            let a1 = amount_1_spec(sp, sl, su, liquidity as int, true);
            let gate = old(pool).spec_status(PoolStatusBitIndex::OpenPositionOrIncreaseLiquidity);
            let amok = amounts_ok(sp, sl, su, liquidity as int, true);
            let slok = slippage_ok(
                liquidity as int,
                a0,
                a1,
                amount_0_max as int,
                amount_1_max as int,
            );
            let lok = ledger_ok(
                *old(pool),
                *old(tick_lower_state),
                *old(tick_upper_state),
                *old(protocol_position),
                liquidity as int,
                in_range,
            );
            let sok = settlement_ok(
                *old(pool),
                *old(tick_lower_state),
                *old(tick_upper_state),
                *old(protocol_position),
                *old(personal_position),
                liquidity as int,
            );
            &&& (r is Ok <==> gate && liquidity <= I128_MAX as u128 && amok && slok && lok && sok)
            &&& (gate && liquidity > I128_MAX as u128 ==> r == Err::<
                IncreaseLiquidityEvent,
                ErrorCode,
            >(ErrorCode::MathOverflow))
            &&& (gate && liquidity <= I128_MAX as u128 && amok && !slok ==> r == Err::<
                IncreaseLiquidityEvent,
                ErrorCode,
            >(ErrorCode::PriceSlippageExceeded))
            &&& (r matches Ok(ev) ==> {
                &&& ev.position_nft_mint == old(personal_position).nft_mint
                &&& ev.liquidity == liquidity
                &&& ev.amount_0 <= amount_0_max
                &&& ev.amount_1 <= amount_1_max
                &&& ev.amount_0 as int == a0
                &&& ev.amount_1 as int == a1
                &&& final(tick_lower_state).tick == old(tick_lower_state).tick
                &&& final(tick_upper_state).tick == old(tick_upper_state).tick
                &&& final(tick_lower_state).liquidity_net as int == old(tick_lower_state).liquidity_net as int + liquidity as int
                &&& final(tick_upper_state).liquidity_net as int == old(tick_upper_state).liquidity_net as int - liquidity as int
                &&& final(tick_lower_state).liquidity_gross as int == old(tick_lower_state).liquidity_gross as int + liquidity as int
                &&& final(tick_upper_state).liquidity_gross as int == old(tick_upper_state).liquidity_gross as int + liquidity as int
                &&& final(tick_lower_state).fee_growth_outside_0_x64 as int == outside_after_update(
                    old(tick_lower_state).liquidity_gross as int,
                    old(tick_lower_state).tick as int,
                    old(pool).tick_current as int,
                    old(pool).fee_growth_global_0_x64 as int,
                    old(tick_lower_state).fee_growth_outside_0_x64 as int,
                )
                &&& final(tick_lower_state).fee_growth_outside_1_x64 as int == outside_after_update(
                    old(tick_lower_state).liquidity_gross as int,
                    old(tick_lower_state).tick as int,
                    old(pool).tick_current as int,
                    old(pool).fee_growth_global_1_x64 as int,
                    old(tick_lower_state).fee_growth_outside_1_x64 as int,
                )
                &&& final(tick_upper_state).fee_growth_outside_0_x64 as int == outside_after_update(
                    old(tick_upper_state).liquidity_gross as int,
                    old(tick_upper_state).tick as int,
                    old(pool).tick_current as int,
                    old(pool).fee_growth_global_0_x64 as int,
                    old(tick_upper_state).fee_growth_outside_0_x64 as int,
                )
                &&& final(tick_upper_state).fee_growth_outside_1_x64 as int == outside_after_update(
                    old(tick_upper_state).liquidity_gross as int,
                    old(tick_upper_state).tick as int,
                    old(pool).tick_current as int,
                    old(pool).fee_growth_global_1_x64 as int,
                    old(tick_upper_state).fee_growth_outside_1_x64 as int,
                )
                &&& final(protocol_position).liquidity as int == old(protocol_position).liquidity as int + liquidity as int
                &&& final(protocol_position).pool_id == old(protocol_position).pool_id
                &&& final(protocol_position).tick_lower_index == old(protocol_position).tick_lower_index
                &&& final(protocol_position).tick_upper_index == old(protocol_position).tick_upper_index
                &&& final(protocol_position).reward_growth_inside == old(protocol_position).reward_growth_inside
                &&& final(protocol_position).fee_growth_inside_0_last_x64 as int
                    == fee_growth_inside_after_update(
                    *old(tick_lower_state),
                    *old(tick_upper_state),
                    old(pool).tick_current as int,
                    old(pool).fee_growth_global_0_x64 as int,
                    old(tick_lower_state).fee_growth_outside_0_x64 as int,
                    old(tick_upper_state).fee_growth_outside_0_x64 as int,
                )
                &&& final(protocol_position).fee_growth_inside_1_last_x64 as int
                    == fee_growth_inside_after_update(
                    *old(tick_lower_state),
                    *old(tick_upper_state),
                    old(pool).tick_current as int,
                    old(pool).fee_growth_global_1_x64 as int,
                    old(tick_lower_state).fee_growth_outside_1_x64 as int,
                    old(tick_upper_state).fee_growth_outside_1_x64 as int,
                )
                &&& final(pool).liquidity as int == if in_range {
                    old(pool).liquidity as int + liquidity as int
                } else {
                    old(pool).liquidity as int
                }
                &&& *final(pool) == (PoolState { liquidity: final(pool).liquidity, ..*old(pool) })
                &&& final(personal_position).liquidity as int == old(personal_position).liquidity as int + liquidity as int
                &&& final(personal_position).fee_growth_inside_0_last_x64 == final(protocol_position).fee_growth_inside_0_last_x64
                &&& final(personal_position).fee_growth_inside_1_last_x64 == final(protocol_position).fee_growth_inside_1_last_x64
                &&& final(personal_position).token_fees_owed_0 as int == old(personal_position).token_fees_owed_0 as int + growth_delta_spec(
                    final(protocol_position).fee_growth_inside_0_last_x64 as int,
                    old(personal_position).fee_growth_inside_0_last_x64 as int,
                    old(personal_position).liquidity as int,
                )
                &&& final(personal_position).token_fees_owed_1 as int == old(personal_position).token_fees_owed_1 as int + growth_delta_spec(
                    final(protocol_position).fee_growth_inside_1_last_x64 as int,
                    old(personal_position).fee_growth_inside_1_last_x64 as int,
                    old(personal_position).liquidity as int,
                )
                &&& final(personal_position).reward_infos@.len() == old(personal_position).reward_infos@.len()
                &&& (forall|i: int|
                    0 <= i < final(personal_position).reward_infos@.len() ==> final(personal_position).reward_infos@[i].growth_inside_last_x64 == old(protocol_position).reward_growth_inside@[i])
                &&& (forall|i: int|
                    0 <= i < final(personal_position).reward_infos@.len() ==> final(personal_position).reward_infos@[i].reward_amount_owed as int == old(personal_position).reward_infos@[i].reward_amount_owed as int + growth_delta_spec(
                        old(protocol_position).reward_growth_inside@[i] as int,
                        old(personal_position).reward_infos@[i].growth_inside_last_x64 as int,
                        old(personal_position).liquidity as int,
                    ))
                &&& final(personal_position).nft_mint == old(personal_position).nft_mint
                &&& final(personal_position).pool_id == old(personal_position).pool_id
                &&& final(personal_position).tick_lower_index == old(personal_position).tick_lower_index
                &&& final(personal_position).tick_upper_index == old(personal_position).tick_upper_index
            })
        }),
{
    if !pool.get_status_by_bit(PoolStatusBitIndex::OpenPositionOrIncreaseLiquidity) {
        return Err(ErrorCode::NotApproved);
    }
    if liquidity > I128_MAX as u128 {
        return Err(ErrorCode::MathOverflow);
    }
    let liquidity_delta = liquidity as i128;
    let sqrt_lower = match get_sqrt_price_at_tick(tick_lower_state.tick) {
        Ok(v) => v,
        Err(e) => {
            return Err(e);
        },
    };
    let sqrt_upper = match get_sqrt_price_at_tick(tick_upper_state.tick) {
        Ok(v) => v,
        Err(e) => {
            return Err(e);
        },
    };
    if sqrt_lower >= sqrt_upper {
        return Err(ErrorCode::MathOverflow);
    }
    let amounts = match compute_amounts(pool.sqrt_price_x64, sqrt_lower, sqrt_upper, liquidity, true) {
        Ok(v) => v,
        Err(e) => {
            return Err(e);
        },
    };
    if amounts.0 > amount_0_max || amounts.1 > amount_1_max {
        return Err(ErrorCode::PriceSlippageExceeded);
    }
    let mut tick_lower_sim = *tick_lower_state;
    match tick_lower_sim.update(
        pool.tick_current,
        liquidity_delta,
        pool.fee_growth_global_0_x64,
        pool.fee_growth_global_1_x64,
        false,
    ) {
        Ok(_) => (),
        Err(e) => {
            return Err(e);
        },
    }
    let mut tick_upper_sim = *tick_upper_state;
    match tick_upper_sim.update(
        pool.tick_current,
        liquidity_delta,
        pool.fee_growth_global_0_x64,
        pool.fee_growth_global_1_x64,
        true,
    ) {
        Ok(_) => (),
        Err(e) => {
            return Err(e);
        },
    }
    let (fee_growth_inside_0, fee_growth_inside_1) = get_fee_growth_inside(
        &tick_lower_sim,
        &tick_upper_sim,
        pool.tick_current,
        pool.fee_growth_global_0_x64,
        pool.fee_growth_global_1_x64,
    );
    let fees_owed_0_new = match calculate_latest_token_fees(
        personal_position.token_fees_owed_0,
        personal_position.fee_growth_inside_0_last_x64,
        fee_growth_inside_0,
        personal_position.liquidity,
    ) {
        Ok(v) => v,
        Err(e) => {
            return Err(e);
        },
    };
    let fees_owed_1_new = match calculate_latest_token_fees(
        personal_position.token_fees_owed_1,
        personal_position.fee_growth_inside_1_last_x64,
        fee_growth_inside_1,
        personal_position.liquidity,
    ) {
        Ok(v) => v,
        Err(e) => {
            return Err(e);
        },
    };
    let reward_infos_new = match computed_reward_updates(
        &personal_position.reward_infos,
        &protocol_position.reward_growth_inside,
        personal_position.liquidity,
        true,
    ) {
        Ok(v) => v,
        Err(e) => {
            return Err(e);
        },
    };
    let personal_liquidity_new = if personal_position.liquidity > U128_MAX - liquidity {
        return Err(ErrorCode::MathOverflow);
    } else {
        personal_position.liquidity + liquidity
    };
    let committed_amounts = match modify_position(
        pool,
        tick_lower_state,
        tick_upper_state,
        protocol_position,
        liquidity_delta,
        amount_0_max,
        amount_1_max,
    ) {
        Ok(v) => v,
        Err(e) => {
            return Err(e);
        },
    };
    personal_position.token_fees_owed_0 = fees_owed_0_new;
    personal_position.token_fees_owed_1 = fees_owed_1_new;
    personal_position.fee_growth_inside_0_last_x64 = fee_growth_inside_0;
    personal_position.fee_growth_inside_1_last_x64 = fee_growth_inside_1;
    personal_position.reward_infos = reward_infos_new;
    personal_position.liquidity = personal_liquidity_new;
    Ok(
        IncreaseLiquidityEvent {
            position_nft_mint: personal_position.nft_mint,
            liquidity,
            amount_0: committed_amounts.0,
            amount_1: committed_amounts.1,
        },
    )
}


} // verus!
