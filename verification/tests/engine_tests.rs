use clmm_core::access_control::is_authorized_for_token;
use clmm_core::engine::{increase_liquidity, modify_position};
use clmm_core::error::ErrorCode;
use clmm_core::full_math::Q64;
use clmm_core::liquidity_math::add_delta;
use clmm_core::pool::{create_pool, PoolState, PoolStatusBitIndex};
use clmm_core::position::{PersonalPositionState, PositionRewardInfo, ProtocolPositionState};
use clmm_core::tick::TickState;

fn test_pool() -> PoolState {
    // Pool bootstrapped at tick 0 (1:1 ratio, 6-decimal tokens each side).
    let (pool, _event) = create_pool(1u128 << 64, 0, 11, 22, 10, 100, 101, 200, 201, 6, 6).unwrap();
    pool
}

fn test_records() -> (PoolState, TickState, TickState, ProtocolPositionState, PersonalPositionState)
{
    let pool = test_pool();
    let tick_lower = TickState::new(-100);
    let tick_upper = TickState::new(100);
    let protocol_position = ProtocolPositionState {
        pool_id: 1,
        tick_lower_index: -100,
        tick_upper_index: 100,
        liquidity: 0,
        fee_growth_inside_0_last_x64: 0,
        fee_growth_inside_1_last_x64: 0,
        reward_growth_inside: vec![0],
    };
    let personal_position = PersonalPositionState {
        nft_mint: 77,
        pool_id: 1,
        tick_lower_index: -100,
        tick_upper_index: 100,
        liquidity: 0,
        fee_growth_inside_0_last_x64: 0,
        fee_growth_inside_1_last_x64: 0,
        token_fees_owed_0: 0,
        token_fees_owed_1: 0,
        reward_infos: vec![PositionRewardInfo { growth_inside_last_x64: 0, reward_amount_owed: 0 }],
    };
    (pool, tick_lower, tick_upper, protocol_position, personal_position)
}

#[test]
fn pool_bootstrap_at_tick_zero() {
    let (pool, event) = create_pool(1u128 << 64, 7, 11, 22, 10, 100, 101, 200, 201, 6, 6).unwrap();
    assert_eq!(pool.tick_current, 0);
    assert_eq!(pool.liquidity, 0);
    assert_eq!(pool.sqrt_price_x64, 1u128 << 64);
    assert_eq!(pool.fee_growth_global_0_x64, 0);
    assert_eq!(pool.fee_growth_global_1_x64, 0);
    assert_eq!(event.tick, 0);
    assert_eq!(event.tick_spacing, 10);
    assert!(pool.get_status_by_bit(PoolStatusBitIndex::Swap));
}

#[test]
fn pool_create_rejects_bad_price() {
    assert_eq!(
        create_pool(0, 0, 1, 2, 10, 100, 101, 200, 201, 6, 6).map(|_| ()),
        Err(ErrorCode::PriceOutOfBounds)
    );
}

#[test]
fn single_add_then_compute_fees() {
    // Add a million liquidity on [-100, 100] at tick 0: both sides owe a
    // positive amount, and one full unit of fee growth then owes exactly
    // the liquidity in token-0 base units.
    let (mut pool, mut tick_lower, mut tick_upper, mut protocol_position, mut personal_position) =
        test_records();
    let event = increase_liquidity(
        &mut pool,
        &mut tick_lower,
        &mut tick_upper,
        &mut protocol_position,
        &mut personal_position,
        1_000_000,
        u64::MAX,
        u64::MAX,
    )
    .unwrap();
    assert!(event.amount_0 > 0);
    assert!(event.amount_1 > 0);
    assert_eq!(event.amount_0, 4988);
    assert_eq!(event.amount_1, 4988);
    assert_eq!(pool.liquidity, 1_000_000);
    assert_eq!(protocol_position.liquidity, 1_000_000);
    assert_eq!(personal_position.liquidity, 1_000_000);
    assert_eq!(tick_lower.liquidity_net, 1_000_000);
    assert_eq!(tick_upper.liquidity_net, -1_000_000);

    // The accumulator grows by one full Q64 unit with liquidity unchanged.
    let owed = clmm_core::position::calculate_latest_token_fees(
        personal_position.token_fees_owed_0,
        personal_position.fee_growth_inside_0_last_x64,
        personal_position.fee_growth_inside_0_last_x64.wrapping_add(Q64),
        personal_position.liquidity,
    )
    .unwrap();
    assert_eq!(owed, 1_000_000);
}

#[test]
fn slippage_rejection_leaves_state_untouched() {
    let (mut pool, mut tick_lower, mut tick_upper, mut protocol_position, mut personal_position) =
        test_records();
    let pool_before = pool;
    let tick_lower_before = tick_lower;
    let tick_upper_before = tick_upper;
    let protocol_before = protocol_position.clone();
    let personal_before = personal_position.clone();
    // The required amount0 is 4988; a lower maximum must be rejected.
    let r = increase_liquidity(
        &mut pool,
        &mut tick_lower,
        &mut tick_upper,
        &mut protocol_position,
        &mut personal_position,
        1_000_000,
        4987,
        u64::MAX,
    );
    assert_eq!(r.map(|_| ()), Err(ErrorCode::PriceSlippageExceeded));
    assert_eq!(pool, pool_before);
    assert_eq!(tick_lower, tick_lower_before);
    assert_eq!(tick_upper, tick_upper_before);
    assert_eq!(protocol_position, protocol_before);
    assert_eq!(personal_position, personal_before);
}

#[test]
fn add_remove_sequence_tracks_signed_sum() {
    let (mut pool, mut tick_lower, mut tick_upper, mut protocol_position, _personal) =
        test_records();
    modify_position(&mut pool, &mut tick_lower, &mut tick_upper, &mut protocol_position, 1000, u64::MAX, u64::MAX)
        .unwrap();
    modify_position(&mut pool, &mut tick_lower, &mut tick_upper, &mut protocol_position, -400, 0, 0)
        .unwrap();
    assert_eq!(protocol_position.liquidity, 600);
    assert_eq!(pool.liquidity, 600);
    // Removing beyond the available liquidity is refused and changes nothing.
    let r = modify_position(
        &mut pool,
        &mut tick_lower,
        &mut tick_upper,
        &mut protocol_position,
        -700,
        0,
        0,
    );
    assert_eq!(r.map(|_| ()), Err(ErrorCode::LiquiditySubValueError));
    assert_eq!(protocol_position.liquidity, 600);
    assert_eq!(pool.liquidity, 600);
    // Net liquidity of the two bounding ticks still sums to zero.
    assert_eq!(tick_lower.liquidity_net + tick_upper.liquidity_net, 0);
}

#[test]
fn zero_delta_is_fee_settlement_only() {
    let (mut pool, mut tick_lower, mut tick_upper, mut protocol_position, mut personal_position) =
        test_records();
    increase_liquidity(
        &mut pool,
        &mut tick_lower,
        &mut tick_upper,
        &mut protocol_position,
        &mut personal_position,
        1_000_000,
        u64::MAX,
        u64::MAX,
    )
    .unwrap();
    // Simulate trading fees accruing globally, then settle with delta 0.
    pool.fee_growth_global_0_x64 = 5 * Q64;
    let liquidity_fields_before = (
        pool.liquidity,
        tick_lower.liquidity_net,
        tick_lower.liquidity_gross,
        tick_upper.liquidity_net,
        tick_upper.liquidity_gross,
        protocol_position.liquidity,
        personal_position.liquidity,
    );
    let event = increase_liquidity(
        &mut pool,
        &mut tick_lower,
        &mut tick_upper,
        &mut protocol_position,
        &mut personal_position,
        0,
        u64::MAX,
        u64::MAX,
    )
    .unwrap();
    assert_eq!(event.amount_0, 0);
    assert_eq!(event.amount_1, 0);
    let liquidity_fields_after = (
        pool.liquidity,
        tick_lower.liquidity_net,
        tick_lower.liquidity_gross,
        tick_upper.liquidity_net,
        tick_upper.liquidity_gross,
        protocol_position.liquidity,
        personal_position.liquidity,
    );
    assert_eq!(liquidity_fields_before, liquidity_fields_after);
    // Only the owed fees moved: five full units over a million liquidity.
    assert_eq!(personal_position.token_fees_owed_0, 5_000_000);
    assert_eq!(personal_position.token_fees_owed_1, 0);
}

#[test]
fn disabled_pool_refuses_increase() {
    let (mut pool, mut tick_lower, mut tick_upper, mut protocol_position, mut personal_position) =
        test_records();
    pool.set_status_by_bit(PoolStatusBitIndex::OpenPositionOrIncreaseLiquidity, false);
    let r = increase_liquidity(
        &mut pool,
        &mut tick_lower,
        &mut tick_upper,
        &mut protocol_position,
        &mut personal_position,
        1,
        u64::MAX,
        u64::MAX,
    );
    assert_eq!(r.map(|_| ()), Err(ErrorCode::NotApproved));
    // Other categories stay enabled.
    assert!(pool.get_status_by_bit(PoolStatusBitIndex::DecreaseLiquidity));
}

#[test]
fn tick_crossing_ledger() {
    // After a price-crossing swap moves over a tick with non-zero net
    // liquidity, the pool's active liquidity changes by exactly that net
    // value and the outside snapshot flips to (global - previous outside).
    let mut tick = TickState::new(50);
    tick.liquidity_net = 500;
    tick.liquidity_gross = 500;
    tick.fee_growth_outside_0_x64 = 7;
    tick.fee_growth_outside_1_x64 = 11;
    let global_0 = 100u128;
    let global_1 = 40u128;
    let net = tick.cross(global_0, global_1);
    assert_eq!(net, 500);
    assert_eq!(tick.fee_growth_outside_0_x64, 93);
    assert_eq!(tick.fee_growth_outside_1_x64, 29);
    let pool_liquidity = 1000u128;
    assert_eq!(add_delta(pool_liquidity, net), Ok(1500));
    // Crossing back flips the snapshot again.
    let net_back = tick.cross(global_0, global_1);
    assert_eq!(net_back, 500);
    assert_eq!(tick.fee_growth_outside_0_x64, 7);
}

#[test]
fn tick_update_initializes_outside_snapshot() {
    // First touch of a tick at or below the current tick pins its outside
    // snapshot to the global accumulator; above, to zero.
    let mut below = TickState::new(-10);
    let flipped = below.update(0, 100, 55, 66, false).unwrap();
    assert!(flipped);
    assert_eq!(below.fee_growth_outside_0_x64, 55);
    assert_eq!(below.fee_growth_outside_1_x64, 66);
    let mut above = TickState::new(10);
    let flipped_above = above.update(0, 100, 55, 66, true).unwrap();
    assert!(flipped_above);
    assert_eq!(above.fee_growth_outside_0_x64, 0);
    assert_eq!(above.liquidity_net, -100);
    assert_eq!(above.liquidity_gross, 100);
    // Emptying the tick flips it back to uninitialized.
    let flipped_back = above.update(0, -100, 55, 66, true).unwrap();
    assert!(flipped_back);
    assert_eq!(above.liquidity_gross, 0);
}

#[test]
fn rewards_settle_before_liquidity_change() {
    let (mut pool, mut tick_lower, mut tick_upper, mut protocol_position, mut personal_position) =
        test_records();
    increase_liquidity(
        &mut pool,
        &mut tick_lower,
        &mut tick_upper,
        &mut protocol_position,
        &mut personal_position,
        1_000,
        u64::MAX,
        u64::MAX,
    )
    .unwrap();
    // A full unit of reward growth, then another increase: the owed reward
    // must be priced against the 1000 liquidity that was in effect, not
    // against the liquidity after the second increase.
    protocol_position.reward_growth_inside = vec![Q64];
    increase_liquidity(
        &mut pool,
        &mut tick_lower,
        &mut tick_upper,
        &mut protocol_position,
        &mut personal_position,
        9_000,
        u64::MAX,
        u64::MAX,
    )
    .unwrap();
    assert_eq!(personal_position.liquidity, 10_000);
    assert_eq!(personal_position.reward_infos[0].reward_amount_owed, 1_000);
    assert_eq!(personal_position.reward_infos[0].growth_inside_last_x64, Q64);
}

#[test]
fn update_rewards_direct() {
    let (_pool, _tl, _tu, _pp, mut personal_position) = test_records();
    personal_position.liquidity = 5;
    let growths = vec![Q64];
    personal_position.update_rewards(&growths, true).unwrap();
    assert_eq!(personal_position.reward_infos[0].reward_amount_owed, 5);
    assert_eq!(personal_position.reward_infos[0].growth_inside_last_x64, Q64);
    // Without the add flag only the snapshot moves.
    let growths_2 = vec![2 * Q64];
    personal_position.update_rewards(&growths_2, false).unwrap();
    assert_eq!(personal_position.reward_infos[0].reward_amount_owed, 5);
    assert_eq!(personal_position.reward_infos[0].growth_inside_last_x64, 2 * Q64);
}

#[test]
fn authorization_requires_owned_token() {
    assert_eq!(is_authorized_for_token(9, 9, 1), Ok(()));
    assert_eq!(is_authorized_for_token(9, 8, 1), Err(ErrorCode::NotApproved));
    assert_eq!(is_authorized_for_token(9, 9, 0), Err(ErrorCode::NotApproved));
    assert_eq!(is_authorized_for_token(9, 9, 2), Err(ErrorCode::NotApproved));
}

#[test]
fn vault_decimals_picks_matching_mint() {
    let (mut pool, ..) = test_records();
    pool.mint_decimals_0 = 6;
    pool.mint_decimals_1 = 9;
    assert_eq!(pool.vault_decimals(pool.token_mint_0), 6);
    assert_eq!(pool.vault_decimals(pool.token_mint_1), 9);
}

#[test]
fn price_below_and_above_range() {
    // Below the range only token 0 is owed; above it only token 1.
    let (pool0, _event) = create_pool(
        clmm_core::tick_math::get_sqrt_price_at_tick(-200).unwrap(),
        0,
        11,
        22,
        10,
        100,
        101,
        200,
        201,
        6,
        6,
    )
    .unwrap();
    let mut pool = pool0;
    let mut tick_lower = TickState::new(-100);
    let mut tick_upper = TickState::new(100);
    let mut pp = ProtocolPositionState {
        pool_id: 1,
        tick_lower_index: -100,
        tick_upper_index: 100,
        liquidity: 0,
        fee_growth_inside_0_last_x64: 0,
        fee_growth_inside_1_last_x64: 0,
        reward_growth_inside: vec![],
    };
    let (a0, a1) =
        modify_position(&mut pool, &mut tick_lower, &mut tick_upper, &mut pp, 1_000_000, u64::MAX, u64::MAX)
            .unwrap();
    assert!(a0 > 0);
    assert_eq!(a1, 0);
    // The price is outside the range, so active liquidity is untouched.
    assert_eq!(pool.liquidity, 0);

    let (pool1, _event) = create_pool(
        clmm_core::tick_math::get_sqrt_price_at_tick(200).unwrap(),
        0,
        11,
        22,
        10,
        100,
        101,
        200,
        201,
        6,
        6,
    )
    .unwrap();
    let mut pool_above = pool1;
    let mut tl = TickState::new(-100);
    let mut tu = TickState::new(100);
    let mut pp_above = pp.clone();
    pp_above.liquidity = 0;
    let (b0, b1) = modify_position(
        &mut pool_above,
        &mut tl,
        &mut tu,
        &mut pp_above,
        1_000_000,
        u64::MAX,
        u64::MAX,
    )
    .unwrap();
    assert_eq!(b0, 0);
    assert!(b1 > 0);
    assert_eq!(pool_above.liquidity, 0);
}

#[test]
fn removal_shortfall_pins_error_at_each_ledger_entry() {
    // The shortfall can sit at the lower tick, the upper tick, or the
    // shared range position; each case is the same removal error.
    let (mut pool, mut tick_lower, mut tick_upper, mut pp, _personal) = test_records();
    modify_position(&mut pool, &mut tick_lower, &mut tick_upper, &mut pp, 1000, u64::MAX, u64::MAX)
        .unwrap();
    // Upper tick artificially short: only it can run out first.
    tick_upper.liquidity_gross = 300;
    let r_upper = modify_position(&mut pool, &mut tick_lower, &mut tick_upper, &mut pp, -500, 0, 0);
    assert_eq!(r_upper.map(|_| ()), Err(ErrorCode::LiquiditySubValueError));
    tick_upper.liquidity_gross = 1000;
    // Range position short while both ticks are covered.
    pp.liquidity = 300;
    let r_pp = modify_position(&mut pool, &mut tick_lower, &mut tick_upper, &mut pp, -500, 0, 0);
    assert_eq!(r_pp.map(|_| ()), Err(ErrorCode::LiquiditySubValueError));
}

#[test]
fn slippage_wins_over_settlement_overflow() {
    // When the caller's maximum is violated and a fee total would also
    // overflow, the slippage failure is reported: amounts and slippage
    // are decided before any settlement arithmetic runs.
    let (mut pool, mut tick_lower, mut tick_upper, mut pp, mut personal) = test_records();
    increase_liquidity(
        &mut pool,
        &mut tick_lower,
        &mut tick_upper,
        &mut pp,
        &mut personal,
        1_000_000,
        u64::MAX,
        u64::MAX,
    )
    .unwrap();
    // Make the next fee settlement overflow the owed total...
    personal.token_fees_owed_0 = u64::MAX;
    pool.fee_growth_global_0_x64 = 100 * Q64;
    // ...and also violate the caller's maximum.
    let r = increase_liquidity(
        &mut pool,
        &mut tick_lower,
        &mut tick_upper,
        &mut pp,
        &mut personal,
        1_000_000,
        0,
        0,
    );
    assert_eq!(r.map(|_| ()), Err(ErrorCode::PriceSlippageExceeded));
}
