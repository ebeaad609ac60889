use clmm_core::error::ErrorCode;
use clmm_core::tick::TickState;
use clmm_core::tick_array::{get_array_start_index, TickArrayState, TICK_ARRAY_SIZE};

#[test]
fn array_start_index_aligns_down() {
    // Spacing 10 gives pages of 600 ticks.
    assert_eq!(get_array_start_index(0, 10), 0);
    assert_eq!(get_array_start_index(599, 10), 0);
    assert_eq!(get_array_start_index(600, 10), 600);
    assert_eq!(get_array_start_index(-1, 10), -600);
    assert_eq!(get_array_start_index(-600, 10), -600);
    assert_eq!(get_array_start_index(-601, 10), -1200);
    assert_eq!(get_array_start_index(443636, 10), 443400);
    assert_eq!(get_array_start_index(-443636, 10), -444000);
    assert_eq!(get_array_start_index(59, 1), 0);
    assert_eq!(get_array_start_index(-60, 1), -60);
}

#[test]
fn array_page_holds_its_grid() {
    let array = TickArrayState::new(3, -600, 10);
    assert_eq!(array.ticks.len(), TICK_ARRAY_SIZE as usize);
    assert_eq!(array.ticks[0].tick, -600);
    assert_eq!(array.ticks[59].tick, -10);
    let t = array.get_tick_state(-600).unwrap();
    assert_eq!(t.tick, -600);
    assert_eq!(t.liquidity_gross, 0);
    // Off-grid and off-page ticks are refused.
    assert_eq!(array.get_tick_state(-605).map(|_| ()), Err(ErrorCode::TickOutOfBounds));
    assert_eq!(array.get_tick_state(0).map(|_| ()), Err(ErrorCode::TickOutOfBounds));
    assert_eq!(array.get_tick_state(-700).map(|_| ()), Err(ErrorCode::TickOutOfBounds));
}

#[test]
fn array_set_tick_state_round_trip() {
    let mut array = TickArrayState::new(3, 0, 10);
    let mut tick = TickState::new(250);
    tick.liquidity_gross = 42;
    tick.liquidity_net = -42;
    array.set_tick_state(250, tick).unwrap();
    let read_back = array.get_tick_state(250).unwrap();
    assert_eq!(read_back.liquidity_gross, 42);
    assert_eq!(read_back.liquidity_net, -42);
    // Neighbouring slots are untouched.
    assert_eq!(array.get_tick_state(240).unwrap().liquidity_gross, 0);
    let bad = TickState::new(255);
    assert_eq!(array.set_tick_state(255, bad).map(|_| ()), Err(ErrorCode::TickOutOfBounds));
}
