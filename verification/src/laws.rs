//! Ledger laws: properties that relate several engine operations,
//! stated over the same spec functions the operations' contracts use.

use vstd::prelude::*;
use vstd::arithmetic::div_mod::lemma_div_pos_is_pos;
use vstd::arithmetic::mul::lemma_mul_nonnegative;
use crate::full_math::{Q64, U128_MAX};
use crate::position::growth_delta_spec;
use crate::tick::wrapping_sub_spec;

verus! {

/// Net-liquidity zero-sum preservation: a liquidity change on a range
/// adds the delta to the lower tick's net liquidity and subtracts it
/// from the upper tick's (see `modify_position`), so the sum of net
/// liquidity over all initialized ticks is unchanged; in particular, a
/// sum of zero stays zero.
pub proof fn lemma_net_liquidity_zero_sum(
    net_lower: int,
    net_upper: int,
    net_of_other_ticks: int,
    delta: int,
)
    requires
        net_lower + net_upper + net_of_other_ticks == 0,
    ensures
        (net_lower + delta) + (net_upper - delta) + net_of_other_ticks == 0,
{
}

/// The signed sum of a sequence of liquidity deltas.
pub open spec fn signed_sum(deltas: Seq<int>) -> int
    decreases deltas.len(),
{
    if deltas.len() == 0 {
        0
    } else {
        signed_sum(deltas.drop_last()) + deltas.last()
    }
}

/// The range position's liquidity after a sequence of liquidity changes
/// on one range, mirroring `modify_position`: a successful call moves
/// the liquidity by exactly the delta, and a call that would leave
/// `[0, u128::MAX]` fails — with `LiquiditySubValueError` on a removal
/// beyond the available amount — and changes nothing.
pub open spec fn apply_deltas(liquidity: int, deltas: Seq<int>) -> Option<int>
    decreases deltas.len(),
{
    if deltas.len() == 0 {
        Some(liquidity)
    } else {
        match apply_deltas(liquidity, deltas.drop_last()) {
            None => None,
            Some(l) => {
                let next = l + deltas.last();
                if 0 <= next <= U128_MAX as int {
                    Some(next)
                } else {
                    None
                }
            },
        }
    }
}

/// Range-liquidity ledger law: across any sequence of add or remove
/// calls on one range in which every call succeeds, the final liquidity
/// of the shared range position equals the initial liquidity plus the
/// signed sum of the applied deltas, and never leaves `[0, u128::MAX]`.
pub proof fn lemma_liquidity_is_signed_delta_sum(liquidity: int, deltas: Seq<int>)
    requires
        0 <= liquidity <= U128_MAX as int,
        apply_deltas(liquidity, deltas) is Some,
    ensures
        apply_deltas(liquidity, deltas) == Some(liquidity + signed_sum(deltas)),
        0 <= liquidity + signed_sum(deltas) <= U128_MAX as int,
    decreases deltas.len(),
{
    if deltas.len() == 0 {
    } else {
        lemma_liquidity_is_signed_delta_sum(liquidity, deltas.drop_last());
    }
}

/// Fee monotonicity: a settlement against a non-decreased accumulator
/// adds `floor(wrapping_delta * liquidity / 2^64) >= 0` to the owed
/// balance, so a position's owed fees never decrease across any chain of
/// settlements (see `calculate_latest_token_fees`).
pub proof fn lemma_fees_owed_monotonic(
    owed: int,
    growth_latest: int,
    growth_last: int,
    liquidity: int,
)
    requires
        0 <= growth_latest <= U128_MAX as int,
        0 <= growth_last <= U128_MAX as int,
        0 <= liquidity,
    ensures
        owed <= owed + growth_delta_spec(growth_latest, growth_last, liquidity),
{
    lemma_mul_nonnegative(wrapping_sub_spec(growth_latest, growth_last), liquidity);
    lemma_div_pos_is_pos(wrapping_sub_spec(growth_latest, growth_last) * liquidity, Q64 as int);
}

} // verus!
