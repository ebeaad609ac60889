//! Per-pool global state: current price and tick, active liquidity,
//! global fee-growth accumulators, protocol fees, operation gating and
//! configuration references.

use vstd::prelude::*;
use crate::error::ErrorCode;
use crate::tick_math::{
    get_tick_at_sqrt_price, sqrt_price_spec, MAX_SQRT_PRICE_X64, MAX_TICK, MIN_SQRT_PRICE_X64,
    MIN_TICK,
};

verus! {

/// The categories of operation that a pool can individually enable or
/// disable; each mutating entry point checks its own flag.
#[derive(Clone, Copy, PartialEq, Eq, Structural, Debug)]
pub enum PoolStatusBitIndex {
    /// Opening a position or increasing its liquidity.
    OpenPositionOrIncreaseLiquidity,
    /// Decreasing a position's liquidity.
    DecreaseLiquidity,
    /// Swapping through the pool.
    Swap,
    /// Collecting accrued fees.
    CollectFee,
}

/// Global state of one pool.
#[derive(Clone, Copy, PartialEq, Eq, Structural, Debug)]
pub struct PoolState {
    /// Configuration record this pool was created from.
    pub amm_config: u64,
    /// Account that created the pool.
    pub creator: u64,
    /// Mint of token 0; by convention ordered before token 1.
    pub token_mint_0: u64,
    /// Mint of token 1.
    pub token_mint_1: u64,
    /// Vault holding the pool's token-0 balance.
    pub token_vault_0: u64,
    /// Vault holding the pool's token-1 balance.
    pub token_vault_1: u64,
    /// Decimals of token 0, for display and validation only.
    pub mint_decimals_0: u8,
    /// Decimals of token 1, for display and validation only.
    pub mint_decimals_1: u8,
    /// Distance between initializable ticks.
    pub tick_spacing: u16,
    /// Total liquidity active at the current price.
    pub liquidity: u128,
    /// Current square-root price, Q64.64.
    pub sqrt_price_x64: u128,
    /// Greatest tick whose price is at or below the current price.
    pub tick_current: i32,
    /// Time from which operations are permitted.
    pub open_time: u64,
    /// Global token-0 fee growth per unit of liquidity, wrapping.
    pub fee_growth_global_0_x64: u128,
    /// Global token-1 fee growth per unit of liquidity, wrapping.
    pub fee_growth_global_1_x64: u128,
    /// Protocol-owed token-0 fees.
    pub protocol_fees_token_0: u64,
    /// Protocol-owed token-1 fees.
    pub protocol_fees_token_1: u64,
    /// Whether opening or increasing positions is enabled.
    pub status_open_position_or_increase_liquidity: bool,
    /// Whether decreasing positions is enabled.
    pub status_decrease_liquidity: bool,
    /// Whether swapping is enabled.
    pub status_swap: bool,
    /// Whether fee collection is enabled.
    pub status_collect_fee: bool,
}

impl PoolState {
    /// Whether the given operation category is currently enabled.
    pub fn get_status_by_bit(&self, bit: PoolStatusBitIndex) -> (r: bool)
        ensures
            r == self.spec_status(bit),
    {
        match bit {
            PoolStatusBitIndex::OpenPositionOrIncreaseLiquidity => self.status_open_position_or_increase_liquidity,
            PoolStatusBitIndex::DecreaseLiquidity => self.status_decrease_liquidity,
            PoolStatusBitIndex::Swap => self.status_swap,
            PoolStatusBitIndex::CollectFee => self.status_collect_fee,
        }
    }

    /// The enabled flag for an operation category.
    pub open spec fn spec_status(&self, bit: PoolStatusBitIndex) -> bool {
        match bit {
            PoolStatusBitIndex::OpenPositionOrIncreaseLiquidity => self.status_open_position_or_increase_liquidity,
            PoolStatusBitIndex::DecreaseLiquidity => self.status_decrease_liquidity,
            PoolStatusBitIndex::Swap => self.status_swap,
            PoolStatusBitIndex::CollectFee => self.status_collect_fee,
        }
    }

    /// Enables or disables one operation category, leaving the rest of
    /// the pool untouched.
    pub fn set_status_by_bit(&mut self, bit: PoolStatusBitIndex, enable: bool)
        ensures
            final(self).spec_status(bit) == enable,
            forall|other: PoolStatusBitIndex|
                other != bit ==> final(self).spec_status(other) == old(self).spec_status(other),
            *final(self) == (match bit {
                PoolStatusBitIndex::OpenPositionOrIncreaseLiquidity => PoolState {
                    status_open_position_or_increase_liquidity: enable,
                    ..*old(self)
                },
                PoolStatusBitIndex::DecreaseLiquidity => PoolState {
                    status_decrease_liquidity: enable,
                    ..*old(self)
                },
                PoolStatusBitIndex::Swap => PoolState { status_swap: enable, ..*old(self) },
                PoolStatusBitIndex::CollectFee => PoolState {
                    status_collect_fee: enable,
                    ..*old(self)
                },
            }),
    {
        match bit {
            PoolStatusBitIndex::OpenPositionOrIncreaseLiquidity => {
                self.status_open_position_or_increase_liquidity = enable;
            },
            PoolStatusBitIndex::DecreaseLiquidity => {
                self.status_decrease_liquidity = enable;
            },
            PoolStatusBitIndex::Swap => {
                self.status_swap = enable;
            },
            PoolStatusBitIndex::CollectFee => {
                self.status_collect_fee = enable;
            },
        }
    }

    /// Decimals of the token held by the given vault mint: token 0's if
    /// the mint matches token 0, token 1's otherwise.
    pub fn vault_decimals(&self, vault_mint: u64) -> (r: u8)
        ensures
            r == if vault_mint == self.token_mint_0 {
                self.mint_decimals_0
            } else {
                self.mint_decimals_1
            },
    {
        if vault_mint == self.token_mint_0 {
            self.mint_decimals_0
        } else {
            self.mint_decimals_1
        }
    }
}

/// Notification record emitted when a pool is created.
#[derive(Clone, Copy, PartialEq, Eq, Structural, Debug)]
pub struct PoolCreatedEvent {
    /// Mint of token 0.
    pub token_mint_0: u64,
    /// Mint of token 1.
    pub token_mint_1: u64,
    /// Tick spacing of the pool.
    pub tick_spacing: u16,
    /// Initial square-root price.
    pub sqrt_price_x64: u128,
    /// Initial tick derived from the price.
    pub tick: i32,
    /// Vault for token 0.
    pub token_vault_0: u64,
    /// Vault for token 1.
    pub token_vault_1: u64,
}

/// Creates a pool at an initial square-root price: derives the initial
/// tick, zeroes liquidity and all accumulators, enables every operation
/// category, and reports the creation event. Fails with
/// `PriceOutOfBounds` exactly when the price lies outside the supported
/// range.
pub fn create_pool(
    sqrt_price_x64: u128,
    open_time: u64,
    creator: u64,
    amm_config: u64,
    tick_spacing: u16,
    token_mint_0: u64,
    token_mint_1: u64,
    token_vault_0: u64,
    token_vault_1: u64,
    mint_decimals_0: u8,
    mint_decimals_1: u8,
) -> (r: Result<(PoolState, PoolCreatedEvent), ErrorCode>)
    ensures
        (sqrt_price_x64 < MIN_SQRT_PRICE_X64 || sqrt_price_x64 > MAX_SQRT_PRICE_X64) <==> r
            == Err::<(PoolState, PoolCreatedEvent), ErrorCode>(ErrorCode::PriceOutOfBounds),
        MIN_SQRT_PRICE_X64 <= sqrt_price_x64 <= MAX_SQRT_PRICE_X64 ==> r is Ok,
        r matches Ok(p) ==> {
            let pool = p.0;
            let event = p.1;
            &&& pool.sqrt_price_x64 == sqrt_price_x64
            &&& MIN_TICK <= pool.tick_current <= MAX_TICK
            &&& sqrt_price_spec(pool.tick_current as int) <= sqrt_price_x64 as int
            &&& (pool.tick_current < MAX_TICK ==> (sqrt_price_x64 as int) < sqrt_price_spec(
                pool.tick_current as int + 1,
            ))
            &&& pool.liquidity == 0
            &&& pool.fee_growth_global_0_x64 == 0
            &&& pool.fee_growth_global_1_x64 == 0
            &&& pool.protocol_fees_token_0 == 0
            &&& pool.protocol_fees_token_1 == 0
            &&& pool.open_time == open_time
            &&& pool.creator == creator
            &&& pool.amm_config == amm_config
            &&& pool.tick_spacing == tick_spacing
            &&& pool.token_mint_0 == token_mint_0
            &&& pool.token_mint_1 == token_mint_1
            &&& pool.token_vault_0 == token_vault_0
            &&& pool.token_vault_1 == token_vault_1
            &&& pool.mint_decimals_0 == mint_decimals_0
            &&& pool.mint_decimals_1 == mint_decimals_1
            &&& pool.status_open_position_or_increase_liquidity
            &&& pool.status_decrease_liquidity
            &&& pool.status_swap
            &&& pool.status_collect_fee
            &&& event == (PoolCreatedEvent {
                token_mint_0,
                token_mint_1,
                tick_spacing,
                sqrt_price_x64,
                tick: pool.tick_current,
                token_vault_0,
                token_vault_1,
            })
        },
{
    let tick = match get_tick_at_sqrt_price(sqrt_price_x64) {
        Ok(t) => t,
        Err(e) => {
            return Err(e);
        },
    };
    let pool = PoolState {
        amm_config,
        creator,
        token_mint_0,
        token_mint_1,
        token_vault_0,
        token_vault_1,
        mint_decimals_0,
        mint_decimals_1,
        tick_spacing,
        liquidity: 0,
        sqrt_price_x64,
        tick_current: tick,
        open_time,
        fee_growth_global_0_x64: 0,
        fee_growth_global_1_x64: 0,
        protocol_fees_token_0: 0,
        protocol_fees_token_1: 0,
        status_open_position_or_increase_liquidity: true,
        status_decrease_liquidity: true,
        status_swap: true,
        status_collect_fee: true,
    };
    let event = PoolCreatedEvent {
        token_mint_0,
        token_mint_1,
        tick_spacing,
        sqrt_price_x64,
        tick,
        token_vault_0,
        token_vault_1,
    };
    Ok((pool, event))
}

} // verus!
