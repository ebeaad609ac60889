//! Position records: the per-range aggregate shared by all positions on
//! one range, the per-owner position, and fee/reward settlement. Owed
//! balances are settled by differencing wrapping growth accumulators
//! against the liquidity that was in effect during the closed interval.

use vstd::prelude::*;
use crate::error::ErrorCode;
use crate::full_math::{mul_div_floor_q64, Q64};
use crate::liquidity_math::U64_MAX;
use crate::tick::{wrapping_sub_spec, wrapping_sub_u128};

verus! {

/// Amount newly owed per settlement: the wrapping growth difference
/// times the position's liquidity, floored, in Q64.64.
pub open spec fn growth_delta_spec(growth_latest: int, growth_last: int, liquidity: int) -> int {
    (wrapping_sub_spec(growth_latest, growth_last) * liquidity) / (Q64 as int)
}

/// Aggregated state for one (pool, tick-lower, tick-upper) range, shared
/// by every personal position on that exact range.
#[derive(Clone, PartialEq, Eq, Debug)]
pub struct ProtocolPositionState {
    /// Pool this range belongs to.
    pub pool_id: u64,
    /// Lower bound of the range.
    pub tick_lower_index: i32,
    /// Upper bound of the range.
    pub tick_upper_index: i32,
    /// Total liquidity of all positions on this exact range.
    pub liquidity: u128,
    /// Token-0 fee growth inside the range at the last update.
    pub fee_growth_inside_0_last_x64: u128,
    /// Token-1 fee growth inside the range at the last update.
    pub fee_growth_inside_1_last_x64: u128,
    /// Reward growth inside the range, one entry per incentive token.
    pub reward_growth_inside: Vec<u128>,
}

/// Per-incentive-token bookkeeping of one personal position.
#[derive(Clone, Copy, PartialEq, Eq, Structural, Debug)]
pub struct PositionRewardInfo {
    /// Reward growth inside the range at the last settlement.
    pub growth_inside_last_x64: u128,
    /// Accrued but unclaimed reward.
    pub reward_amount_owed: u64,
}

/// One owner's claim on liquidity within a tick range, with its own fee
/// and reward bookkeeping.
#[derive(Clone, PartialEq, Eq, Debug)]
pub struct PersonalPositionState {
    /// Ownership token identifying this position.
    pub nft_mint: u64,
    /// Pool this position belongs to.
    pub pool_id: u64,
    /// Lower bound of the range.
    pub tick_lower_index: i32,
    /// Upper bound of the range.
    pub tick_upper_index: i32,
    /// Liquidity owned by this position.
    pub liquidity: u128,
    /// Token-0 fee growth inside the range at the last settlement.
    pub fee_growth_inside_0_last_x64: u128,
    /// Token-1 fee growth inside the range at the last settlement.
    pub fee_growth_inside_1_last_x64: u128,
    /// Accrued but unclaimed token-0 fees.
    pub token_fees_owed_0: u64,
    /// Accrued but unclaimed token-1 fees.
    pub token_fees_owed_1: u64,
    /// Reward bookkeeping, one entry per incentive token.
    pub reward_infos: Vec<PositionRewardInfo>,
}

/// Fees owed after settling one side against the latest fee growth
/// inside the range: the wrapping growth difference is scaled by the
/// liquidity in effect during the interval and added with a checked sum.
/// Fails with `MathOverflow` exactly when the new total would not fit.
pub fn calculate_latest_token_fees(
    last_total_fees: u64,
    fee_growth_inside_last_x64: u128,
    fee_growth_inside_latest_x64: u128,
    liquidity: u128,
) -> (r: Result<u64, ErrorCode>)
    ensures
        ({
            let delta = growth_delta_spec(
                fee_growth_inside_latest_x64 as int,
                fee_growth_inside_last_x64 as int,
                liquidity as int,
            );
            r == if last_total_fees as int + delta > U64_MAX as int {
                Err::<u64, ErrorCode>(ErrorCode::MathOverflow)
            } else {
                Ok::<u64, ErrorCode>((last_total_fees as int + delta) as u64)
            }
        }),
        r matches Ok(v) ==> v >= last_total_fees,
{
    let growth_delta = wrapping_sub_u128(
        fee_growth_inside_latest_x64,
        fee_growth_inside_last_x64,
    );
    match mul_div_floor_q64(growth_delta, liquidity) {
        None => Err(ErrorCode::MathOverflow),
        Some(fee_delta) => {
            if fee_delta > (U64_MAX - last_total_fees) as u128 {
                Err(ErrorCode::MathOverflow)
            } else {
                Ok(last_total_fees + (fee_delta as u64))
            }
        },
    }
}

/// The reward bookkeeping after one settlement round, computed without
/// touching the position: snapshots move to the given growth-inside
/// values, and when `add` is set each owed balance grows by the wrapping
/// growth difference scaled by `liquidity`. Fails with `MathOverflow`
/// exactly when some owed balance would not fit.
pub fn computed_reward_updates(
    reward_infos: &Vec<PositionRewardInfo>,
    reward_growths_inside: &Vec<u128>,
    liquidity: u128,
    add: bool,
) -> (r: Result<Vec<PositionRewardInfo>, ErrorCode>)
    requires
        reward_growths_inside@.len() == reward_infos@.len(),
    ensures
        r matches Ok(v) ==> {
            &&& v@.len() == reward_infos@.len()
            &&& forall|i: int|
                0 <= i < v@.len() ==> v@[i].growth_inside_last_x64 == reward_growths_inside@[i]
            &&& forall|i: int|
                0 <= i < v@.len() ==> v@[i].reward_amount_owed as int
                    == reward_infos@[i].reward_amount_owed as int + (if add {
                    growth_delta_spec(
                        reward_growths_inside@[i] as int,
                        reward_infos@[i].growth_inside_last_x64 as int,
                        liquidity as int,
                    )
                } else {
                    0int
                })
        },
        r is Ok <==> (!add || forall|i: int|
            0 <= i < reward_infos@.len() ==> reward_infos@[i].reward_amount_owed as int
                + growth_delta_spec(
                reward_growths_inside@[i] as int,
                reward_infos@[i].growth_inside_last_x64 as int,
                liquidity as int,
            ) <= U64_MAX as int),
        r is Err ==> r == Err::<Vec<PositionRewardInfo>, ErrorCode>(ErrorCode::MathOverflow),
{
    let n = reward_infos.len();
    let mut updated: Vec<PositionRewardInfo> = Vec::new();
    let mut i: usize = 0;
    while i < n
        invariant
            n == reward_infos@.len(),
            reward_growths_inside@.len() == n,
            0 <= i <= n,
            updated@.len() == i,
            forall|j: int|
                0 <= j < i as int ==> updated@[j].growth_inside_last_x64
                    == reward_growths_inside@[j],
            forall|j: int|
                0 <= j < i as int ==> updated@[j].reward_amount_owed as int
                    == reward_infos@[j].reward_amount_owed as int + (if add {
                    growth_delta_spec(
                        reward_growths_inside@[j] as int,
                        reward_infos@[j].growth_inside_last_x64 as int,
                        liquidity as int,
                    )
                } else {
                    0int
                }),
        decreases n - i,
    {
        let info = reward_infos[i];
        let growth = reward_growths_inside[i];
        let new_owed: u64 = if add {
            let delta = wrapping_sub_u128(growth, info.growth_inside_last_x64);
            match mul_div_floor_q64(delta, liquidity) {
                None => {
                    return Err(ErrorCode::MathOverflow);
                },
                Some(owed_delta) => {
                    if owed_delta > (U64_MAX - info.reward_amount_owed) as u128 {
                        return Err(ErrorCode::MathOverflow);
                    } else {
                        info.reward_amount_owed + (owed_delta as u64)
                    }
                },
            }
        } else {
            info.reward_amount_owed
        };
        updated.push(
            PositionRewardInfo { growth_inside_last_x64: growth, reward_amount_owed: new_owed },
        );
        i = i + 1;
    }
    Ok(updated)
}

impl PersonalPositionState {
    /// Settles this position's rewards against the latest reward growth
    /// inside its range. Must run against the liquidity that was in
    /// effect during the closed interval, so callers settle before any
    /// liquidity change. On failure nothing changes.
    pub fn update_rewards(
        &mut self,
        reward_growths_inside: &Vec<u128>,
        add: bool,
    ) -> (r: Result<(), ErrorCode>)
        requires
            reward_growths_inside@.len() == old(self).reward_infos@.len(),
        ensures
            r matches Ok(()) ==> {
                &&& final(self).reward_infos@.len() == old(self).reward_infos@.len()
                &&& forall|i: int|
                    0 <= i < final(self).reward_infos@.len() ==> final(self).reward_infos@[i].growth_inside_last_x64 == reward_growths_inside@[i]
                &&& forall|i: int|
                    0 <= i < final(self).reward_infos@.len() ==> final(self).reward_infos@[i].reward_amount_owed as int == old(self).reward_infos@[i].reward_amount_owed as int + (if add {
                        growth_delta_spec(
                            reward_growths_inside@[i] as int,
                            old(self).reward_infos@[i].growth_inside_last_x64 as int,
                            old(self).liquidity as int,
                        )
                    } else {
                        0int
                    })
                &&& final(self).liquidity == old(self).liquidity
                &&& final(self).token_fees_owed_0 == old(self).token_fees_owed_0
                &&& final(self).token_fees_owed_1 == old(self).token_fees_owed_1
                &&& final(self).fee_growth_inside_0_last_x64 == old(self).fee_growth_inside_0_last_x64
                &&& final(self).fee_growth_inside_1_last_x64 == old(self).fee_growth_inside_1_last_x64
                &&& final(self).nft_mint == old(self).nft_mint
                &&& final(self).pool_id == old(self).pool_id
                &&& final(self).tick_lower_index == old(self).tick_lower_index
                &&& final(self).tick_upper_index == old(self).tick_upper_index
            },
            r is Err ==> *final(self) == *old(self) && r == Err::<(), ErrorCode>(
                ErrorCode::MathOverflow,
            ),
            r is Ok <==> (!add || forall|i: int|
                0 <= i < old(self).reward_infos@.len() ==> old(self).reward_infos@[i].reward_amount_owed as int + growth_delta_spec(
                    reward_growths_inside@[i] as int,
                    old(self).reward_infos@[i].growth_inside_last_x64 as int,
                    old(self).liquidity as int,
                ) <= U64_MAX as int),
    {
        match computed_reward_updates(&self.reward_infos, reward_growths_inside, self.liquidity, add) {
            Err(e) => Err(e),
            Ok(updated) => {
                self.reward_infos = updated;
                Ok(())
            },
        }
    }
}

} // verus!
