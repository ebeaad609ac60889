//! Per-tick bookkeeping: net and gross liquidity and fee-growth-outside
//! snapshots, with the update and crossing rules of the tick ledger.

use vstd::prelude::*;
use crate::error::ErrorCode;
use crate::full_math::U128_MAX;
use crate::liquidity_math::add_delta;

verus! {

/// Largest value an `i128` can hold.
pub const I128_MAX: i128 = 0x7fff_ffff_ffff_ffff_ffff_ffff_ffff_ffff;

/// Smallest value an `i128` can hold.
pub const I128_MIN: i128 = -0x8000_0000_0000_0000_0000_0000_0000_0000;

/// Wrapping subtraction over the `u128` range: growth accumulators wrap
/// on overflow by design, and only differences are ever consumed.
pub open spec fn wrapping_sub_spec(a: int, b: int) -> int {
    if b <= a {
        a - b
    } else {
        a - b + 0x1_0000_0000_0000_0000_0000_0000_0000_0000
    }
}

/// Wrapping subtraction of two `u128` values, matching
/// `wrapping_sub_spec`.
pub fn wrapping_sub_u128(a: u128, b: u128) -> (r: u128)
    ensures
        r as int == wrapping_sub_spec(a as int, b as int),
{
    if b <= a {
        a - b
    } else {
        (U128_MAX - b) + a + 1
    }
}

/// State of one initialized price-ladder point: the liquidity ledger
/// entries applied when the price crosses it, and the fee growth
/// accumulated outside it.
#[derive(Clone, Copy, PartialEq, Eq, Structural, Debug)]
pub struct TickState {
    /// The tick index this record describes.
    pub tick: i32,
    /// Net liquidity applied when the price crosses this tick upward.
    pub liquidity_net: i128,
    /// Sum of all position liquidity that references this tick.
    pub liquidity_gross: u128,
    /// Token-0 fee growth on the other side of this tick from the
    /// current price, relative to the global accumulator.
    pub fee_growth_outside_0_x64: u128,
    /// Token-1 fee growth on the other side of this tick.
    pub fee_growth_outside_1_x64: u128,
}

impl TickState {
    /// A fresh, uninitialized tick record.
    pub fn new(tick: i32) -> (r: TickState)
        ensures
            r.tick == tick,
            r.liquidity_net == 0,
            r.liquidity_gross == 0,
            r.fee_growth_outside_0_x64 == 0,
            r.fee_growth_outside_1_x64 == 0,
    {
        TickState {
            tick,
            liquidity_net: 0,
            liquidity_gross: 0,
            fee_growth_outside_0_x64: 0,
            fee_growth_outside_1_x64: 0,
        }
    }

    /// Whether any position references this tick.
    pub fn is_initialized(&self) -> (r: bool)
        ensures
            r == (self.liquidity_gross != 0),
    {
        self.liquidity_gross != 0
    }

    /// Applies a liquidity delta to this tick as the lower (`upper ==
    /// false`) or upper (`upper == true`) bound of a range. Returns
    /// whether the tick flipped between initialized and uninitialized.
    /// On first touch the fee-growth-outside snapshots are set to the
    /// global accumulators when the current tick is at or above this
    /// tick, and to zero otherwise. On failure nothing changes.
    pub fn update(
        &mut self,
        tick_current: i32,
        liquidity_delta: i128,
        fee_growth_global_0_x64: u128,
        fee_growth_global_1_x64: u128,
        upper: bool,
    ) -> (r: Result<bool, ErrorCode>)
        ensures
            ({
                let gross_after = old(self).liquidity_gross as int + liquidity_delta as int;
                let net_after = if upper {
                    old(self).liquidity_net as int - liquidity_delta as int
                } else {
                    old(self).liquidity_net as int + liquidity_delta as int
                };
                if gross_after > U128_MAX as int {
                    r == Err::<bool, ErrorCode>(ErrorCode::MathOverflow) && *final(self) == *old(
                        self,
                    )
                } else if gross_after < 0 {
                    r == Err::<bool, ErrorCode>(ErrorCode::LiquiditySubValueError) && *final(self)
                        == *old(self)
                } else if !(I128_MIN as int <= net_after <= I128_MAX as int) {
                    r == Err::<bool, ErrorCode>(ErrorCode::MathOverflow) && *final(self) == *old(
                        self,
                    )
                } else {
                    r == Ok::<bool, ErrorCode>(
                        (old(self).liquidity_gross == 0) != (gross_after == 0),
                    ) && final(self).tick == old(self).tick && final(self).liquidity_gross
                        == gross_after as u128 && final(self).liquidity_net == net_after as i128
                        && final(self).fee_growth_outside_0_x64 == (
                    if old(self).liquidity_gross == 0 {
                        if old(self).tick <= tick_current {
                            fee_growth_global_0_x64
                        } else {
                            0u128
                        }
                    } else {
                        old(self).fee_growth_outside_0_x64
                    }) && final(self).fee_growth_outside_1_x64 == (
                    if old(self).liquidity_gross == 0 {
                        if old(self).tick <= tick_current {
                            fee_growth_global_1_x64
                        } else {
                            0u128
                        }
                    } else {
                        old(self).fee_growth_outside_1_x64
                    })
                }
            }),
    {
        let gross_before = self.liquidity_gross;
        let gross_after = match add_delta(gross_before, liquidity_delta) {
            Ok(g) => g,
            Err(e) => {
                return Err(e);
            },
        };
        let net_after = if upper {
            match self.liquidity_net.checked_sub(liquidity_delta) {
                Some(n) => n,
                None => {
                    return Err(ErrorCode::MathOverflow);
                },
            }
        } else {
            match self.liquidity_net.checked_add(liquidity_delta) {
                Some(n) => n,
                None => {
                    return Err(ErrorCode::MathOverflow);
                },
            }
        };
        if gross_before == 0 {
            if self.tick <= tick_current {
                self.fee_growth_outside_0_x64 = fee_growth_global_0_x64;
                self.fee_growth_outside_1_x64 = fee_growth_global_1_x64;
            } else {
                self.fee_growth_outside_0_x64 = 0;
                self.fee_growth_outside_1_x64 = 0;
            }
        }
        self.liquidity_gross = gross_after;
        self.liquidity_net = net_after;
        Ok((gross_before == 0) != (gross_after == 0))
    }

    /// Crosses this tick: flips both fee-growth-outside snapshots to the
    /// other side of the global accumulators and returns the net
    /// liquidity to apply to the pool's active liquidity.
    pub fn cross(&mut self, fee_growth_global_0_x64: u128, fee_growth_global_1_x64: u128) -> (r:
        i128)
        ensures
            r == old(self).liquidity_net,
            final(self).fee_growth_outside_0_x64 as int == wrapping_sub_spec(
                fee_growth_global_0_x64 as int,
                old(self).fee_growth_outside_0_x64 as int,
            ),
            final(self).fee_growth_outside_1_x64 as int == wrapping_sub_spec(
                fee_growth_global_1_x64 as int,
                old(self).fee_growth_outside_1_x64 as int,
            ),
            final(self).tick == old(self).tick,
            final(self).liquidity_net == old(self).liquidity_net,
            final(self).liquidity_gross == old(self).liquidity_gross,
    {
        self.fee_growth_outside_0_x64 = wrapping_sub_u128(
            fee_growth_global_0_x64,
            self.fee_growth_outside_0_x64,
        );
        self.fee_growth_outside_1_x64 = wrapping_sub_u128(
            fee_growth_global_1_x64,
            self.fee_growth_outside_1_x64,
        );
        self.liquidity_net
    }
}

/// Fee growth accumulated strictly inside a tick range, for one token
/// side: the global accumulator minus the growth below the lower tick
/// and above the upper tick, in wrapping arithmetic.
pub open spec fn fee_growth_inside_spec(
    lower_tick: int,
    lower_outside: int,
    upper_tick: int,
    upper_outside: int,
    tick_current: int,
    global: int,
) -> int {
    let below = if tick_current >= lower_tick {
        lower_outside
    } else {
        wrapping_sub_spec(global, lower_outside)
    };
    let above = if tick_current < upper_tick {
        upper_outside
    } else {
        wrapping_sub_spec(global, upper_outside)
    };
    wrapping_sub_spec(wrapping_sub_spec(global, below), above)
}

/// Fee growth inside the range bounded by two ticks, both token sides.
pub fn get_fee_growth_inside(
    tick_lower: &TickState,
    tick_upper: &TickState,
    tick_current: i32,
    fee_growth_global_0_x64: u128,
    fee_growth_global_1_x64: u128,
) -> (r: (u128, u128))
    ensures
        r.0 as int == fee_growth_inside_spec(
            tick_lower.tick as int,
            tick_lower.fee_growth_outside_0_x64 as int,
            tick_upper.tick as int,
            tick_upper.fee_growth_outside_0_x64 as int,
            tick_current as int,
            fee_growth_global_0_x64 as int,
        ),
        r.1 as int == fee_growth_inside_spec(
            tick_lower.tick as int,
            tick_lower.fee_growth_outside_1_x64 as int,
            tick_upper.tick as int,
            tick_upper.fee_growth_outside_1_x64 as int,
            tick_current as int,
            fee_growth_global_1_x64 as int,
        ),
{
    let below_0 = if tick_current >= tick_lower.tick {
        tick_lower.fee_growth_outside_0_x64
    } else {
        wrapping_sub_u128(fee_growth_global_0_x64, tick_lower.fee_growth_outside_0_x64)
    };
    let below_1 = if tick_current >= tick_lower.tick {
        tick_lower.fee_growth_outside_1_x64
    } else {
        wrapping_sub_u128(fee_growth_global_1_x64, tick_lower.fee_growth_outside_1_x64)
    };
    let above_0 = if tick_current < tick_upper.tick {
        tick_upper.fee_growth_outside_0_x64
    } else {
        wrapping_sub_u128(fee_growth_global_0_x64, tick_upper.fee_growth_outside_0_x64)
    };
    let above_1 = if tick_current < tick_upper.tick {
        tick_upper.fee_growth_outside_1_x64
    } else {
        wrapping_sub_u128(fee_growth_global_1_x64, tick_upper.fee_growth_outside_1_x64)
    };
    let inside_0 = wrapping_sub_u128(wrapping_sub_u128(fee_growth_global_0_x64, below_0), above_0);
    let inside_1 = wrapping_sub_u128(wrapping_sub_u128(fee_growth_global_1_x64, below_1), above_1);
    (inside_0, inside_1)
}

} // verus!
