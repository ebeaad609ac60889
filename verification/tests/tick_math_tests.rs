use clmm_core::error::ErrorCode;
use clmm_core::tick_math::{
    get_sqrt_price_at_tick, get_tick_at_sqrt_price, MAX_SQRT_PRICE_X64, MAX_TICK,
    MIN_SQRT_PRICE_X64, MIN_TICK,
};

#[test]
fn sqrt_price_at_origin_is_one() {
    // Tick 0 is a 1:1 price ratio: exactly one unit in Q64.64.
    assert_eq!(get_sqrt_price_at_tick(0).unwrap(), 1u128 << 64);
}

#[test]
fn sqrt_price_known_values() {
    assert_eq!(get_sqrt_price_at_tick(-1).unwrap(), 18445821805675392311);
    assert_eq!(get_sqrt_price_at_tick(1).unwrap(), 18447666387855959850);
    assert_eq!(get_sqrt_price_at_tick(-100).unwrap(), 18354745142194483561);
    assert_eq!(get_sqrt_price_at_tick(100).unwrap(), 18539204128674405810);
    assert_eq!(get_sqrt_price_at_tick(MIN_TICK).unwrap(), MIN_SQRT_PRICE_X64);
    assert_eq!(get_sqrt_price_at_tick(MAX_TICK).unwrap(), MAX_SQRT_PRICE_X64);
    assert_eq!(get_sqrt_price_at_tick(443635).unwrap(), 79222712478800779405168468063);
}

#[test]
fn sqrt_price_out_of_bounds() {
    assert_eq!(get_sqrt_price_at_tick(MAX_TICK + 1), Err(ErrorCode::TickOutOfBounds));
    assert_eq!(get_sqrt_price_at_tick(MIN_TICK - 1), Err(ErrorCode::TickOutOfBounds));
    assert_eq!(get_sqrt_price_at_tick(i32::MAX), Err(ErrorCode::TickOutOfBounds));
}

#[test]
fn sqrt_price_monotonic_samples() {
    let ticks = [
        MIN_TICK, -443635, -100000, -101, -100, -2, -1, 0, 1, 2, 100, 101, 100000, 443635,
        MAX_TICK,
    ];
    let mut last = 0u128;
    for t in ticks {
        let p = get_sqrt_price_at_tick(t).unwrap();
        assert!(p > last, "price must strictly increase at tick {}", t);
        last = p;
    }
}

#[test]
fn tick_round_trip() {
    // tickAtSqrtPrice(sqrtPriceAtTick(t)) == t on a spread of valid ticks.
    let ticks = [
        MIN_TICK, -443635, -250000, -100000, -4242, -101, -100, -3, -2, -1, 0, 1, 2, 3, 100, 101,
        4242, 100000, 250000, 443635, MAX_TICK,
    ];
    for t in ticks {
        let p = get_sqrt_price_at_tick(t).unwrap();
        assert_eq!(get_tick_at_sqrt_price(p).unwrap(), t, "round trip at tick {}", t);
    }
}

#[test]
fn tick_at_price_between_ticks_rounds_down() {
    let p0 = get_sqrt_price_at_tick(0).unwrap();
    let p1 = get_sqrt_price_at_tick(1).unwrap();
    assert_eq!(get_tick_at_sqrt_price(p0 + 1).unwrap(), 0);
    assert_eq!(get_tick_at_sqrt_price(p1 - 1).unwrap(), 0);
    assert_eq!(get_tick_at_sqrt_price(p1).unwrap(), 1);
}

#[test]
fn tick_at_price_out_of_bounds() {
    assert_eq!(get_tick_at_sqrt_price(MIN_SQRT_PRICE_X64 - 1), Err(ErrorCode::PriceOutOfBounds));
    assert_eq!(get_tick_at_sqrt_price(MAX_SQRT_PRICE_X64 + 1), Err(ErrorCode::PriceOutOfBounds));
    assert_eq!(get_tick_at_sqrt_price(0), Err(ErrorCode::PriceOutOfBounds));
    assert_eq!(get_tick_at_sqrt_price(u128::MAX), Err(ErrorCode::PriceOutOfBounds));
    assert_eq!(get_tick_at_sqrt_price(MIN_SQRT_PRICE_X64).unwrap(), MIN_TICK);
    assert_eq!(get_tick_at_sqrt_price(MAX_SQRT_PRICE_X64).unwrap(), MAX_TICK);
}
