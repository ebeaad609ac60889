//! Fixed-size pages of tick records, addressed by the aligned start tick
//! of the range they cover: tick `t` lives in the array whose start is
//! the greatest multiple of `TICK_ARRAY_SIZE * tick_spacing` at or below
//! `t`.

use vstd::prelude::*;
use vstd::arithmetic::div_mod::{
    lemma_div_pos_is_pos, lemma_fundamental_div_mod, lemma_fundamental_div_mod_converse,
    lemma_mod_bound,
};
use vstd::arithmetic::mul::{lemma_mul_inequality, lemma_mul_is_commutative, lemma_mul_nonnegative};
use crate::error::ErrorCode;
use crate::full_math::lemma_div_ceil_split;
use crate::tick::TickState;
use crate::tick_math::{MAX_TICK, MIN_TICK};

verus! {

/// Number of tick records held by one array page.
pub const TICK_ARRAY_SIZE: u32 = 60;

/// Ticks covered by one array page at the given spacing.
pub open spec fn ticks_per_array(tick_spacing: int) -> int {
    TICK_ARRAY_SIZE as int * tick_spacing
}

/// Start tick of the array page containing `tick`: the greatest multiple
/// of the page span at or below the tick.
pub fn get_array_start_index(tick: i32, tick_spacing: u16) -> (r: i32)
    requires
        1 <= tick_spacing,
        MIN_TICK <= tick <= MAX_TICK,
    ensures
        ({
            let d = ticks_per_array(tick_spacing as int);
            &&& r as int == ((tick as int) / d) * d
            &&& (r as int) <= (tick as int) < (r as int) + d
        }),
{
    let d: u32 = TICK_ARRAY_SIZE * (tick_spacing as u32);
    let ghost di = d as int;
    proof {
        lemma_mul_is_commutative(TICK_ARRAY_SIZE as int, tick_spacing as int);
    }
    if tick >= 0 {
        let q: u32 = (tick as u32) / d;
        proof {
            lemma_fundamental_div_mod(tick as int, di);
            lemma_mod_bound(tick as int, di);
            lemma_div_pos_is_pos(tick as int, di);
            lemma_mul_inequality(q as int, tick as int, di);
            assert(q as int * di == di * (tick as int / di)) by (nonlinear_arith)
                requires
                    q as int == tick as int / di,
            ;
        }
        (q * d) as i32
    } else {
        let m: u32 = (-tick) as u32;
        let q: u32 = (m + d - 1) / d;
        proof {
            lemma_div_ceil_split(m as int, di);
            lemma_fundamental_div_mod(m as int, di);
            lemma_mod_bound(m as int, di);
            lemma_div_pos_is_pos(m as int, di);
            let c = (m as int + di - 1) / di;
            assert(q as int == c);
            assert(c * di - (m as int) < di && 0 <= c * di - (m as int) && c * di <= (m as int) + di
                && c * di < 0x8000_0000) by (nonlinear_arith)
                requires
                    c == m as int / di + (if m as int % di == 0 {
                        0int
                    } else {
                        1int
                    }),
                    m as int == di * (m as int / di) + m as int % di,
                    0 <= (m as int) % di < di,
                    0 < di,
                    0 < (m as int) < 0x8000_0000 - di,
            ;
            assert((-c) * di == -(c * di)) by (nonlinear_arith);
            lemma_fundamental_div_mod_converse(-(m as int), di, -c, c * di - m as int);
            assert((-c) * di == ((-(m as int)) / di) * di) by (nonlinear_arith)
                requires
                    -c == (-(m as int)) / di,
            ;
        }
        -((q * d) as i32)
    }
}

/// One page of tick records: `TICK_ARRAY_SIZE` consecutive initializable
/// ticks of one pool, starting at an aligned start tick.
#[derive(Clone, PartialEq, Eq, Debug)]
pub struct TickArrayState {
    /// Pool this page belongs to.
    pub pool_id: u64,
    /// First tick covered by this page; a multiple of the page span.
    pub start_tick_index: i32,
    /// Distance between the ticks of this page.
    pub tick_spacing: u16,
    /// The page's tick records, one per initializable tick.
    pub ticks: Vec<TickState>,
}

impl TickArrayState {
    /// Well-formedness: the page holds exactly `TICK_ARRAY_SIZE` records
    /// and record `i` describes tick `start + i * spacing`.
    pub open spec fn well_formed(&self) -> bool {
        &&& self.ticks@.len() == TICK_ARRAY_SIZE as int
        &&& 1 <= self.tick_spacing
        &&& MIN_TICK <= self.start_tick_index <= MAX_TICK
        &&& forall|i: int|
            0 <= i < self.ticks@.len() ==> self.ticks@[i].tick as int == self.start_tick_index as int
                + i * self.tick_spacing as int
    }

    /// A fresh page of uninitialized tick records.
    pub fn new(pool_id: u64, start_tick_index: i32, tick_spacing: u16) -> (r: TickArrayState)
        requires
            1 <= tick_spacing,
            MIN_TICK <= start_tick_index <= MAX_TICK,
        ensures
            r.well_formed(),
            r.pool_id == pool_id,
            r.start_tick_index == start_tick_index,
            r.tick_spacing == tick_spacing,
            forall|i: int|
                0 <= i < r.ticks@.len() ==> r.ticks@[i].liquidity_gross == 0
                    && r.ticks@[i].liquidity_net == 0,
    {
        let mut ticks: Vec<TickState> = Vec::new();
        let mut i: u32 = 0;
        while i < TICK_ARRAY_SIZE
            invariant
                0 <= i <= TICK_ARRAY_SIZE,
                ticks@.len() == i as int,
                1 <= tick_spacing,
                MIN_TICK <= start_tick_index <= MAX_TICK,
                forall|j: int|
                    0 <= j < i as int ==> ticks@[j].tick as int == start_tick_index as int + j
                        * tick_spacing as int && ticks@[j].liquidity_gross == 0
                        && ticks@[j].liquidity_net == 0,
            decreases TICK_ARRAY_SIZE - i,
        {
            proof {
                assert(i as int * tick_spacing as int <= 60 * 0x1_0000) by (nonlinear_arith)
                    requires
                        0 <= (i as int) < 60,
                        1 <= (tick_spacing as int) <= 0xffff,
                ;
                assert((i + 1) as int * tick_spacing as int == i as int * tick_spacing as int
                    + tick_spacing as int) by (nonlinear_arith);
            }
            let tick: i32 = start_tick_index + (i * (tick_spacing as u32)) as i32;
            ticks.push(TickState::new(tick));
            i = i + 1;
        }
        TickArrayState { pool_id, start_tick_index, tick_spacing, ticks }
    }

    /// The page slot holding `tick`, when the tick lies on this page's
    /// grid; `None` for a tick off the page or between grid points.
    pub fn tick_offset(&self, tick: i32) -> (r: Option<usize>)
        requires
            self.well_formed(),
            MIN_TICK <= tick <= MAX_TICK,
        ensures
            match r {
                Some(i) => i < TICK_ARRAY_SIZE as usize && self.ticks@[i as int].tick == tick,
                None => forall|i: int| 0 <= i < self.ticks@.len() ==> self.ticks@[i].tick != tick,
            },
    {
        if tick < self.start_tick_index {
            proof {
                assert forall|i: int|
                    0 <= i < self.ticks@.len() implies self.ticks@[i].tick != tick by {
                    lemma_mul_nonnegative(i, self.tick_spacing as int);
                }
            }
            return None;
        }
        let delta: u32 = ((tick - self.start_tick_index) as u32);
        let spacing: u32 = self.tick_spacing as u32;
        let offset: u32 = delta / spacing;
        let remainder: u32 = delta % spacing;
        if remainder != 0 || offset >= TICK_ARRAY_SIZE {
            proof {
                lemma_fundamental_div_mod(delta as int, spacing as int);
                lemma_mod_bound(delta as int, spacing as int);
                assert(forall|i: int|
                    0 <= i < self.ticks@.len() ==> self.ticks@[i].tick != tick) by {
                    assert forall|i: int|
                        0 <= i < self.ticks@.len() implies self.ticks@[i].tick != tick by {
                        if self.ticks@[i].tick == tick {
                            assert(i * spacing as int == delta as int);
                            lemma_fundamental_div_mod_converse(delta as int, spacing as int, i, 0);
                        }
                    }
                }
            }
            return None;
        }
        proof {
            lemma_fundamental_div_mod(delta as int, spacing as int);
            assert(offset as int * spacing as int == spacing as int * (
            delta as int / spacing as int)) by (nonlinear_arith)
                requires
                    offset as int == delta as int / spacing as int,
            ;
        }
        Some(offset as usize)
    }

    /// A copy of the record for `tick`; fails with `TickOutOfBounds` for
    /// a tick this page does not hold.
    pub fn get_tick_state(&self, tick: i32) -> (r: Result<TickState, ErrorCode>)
        requires
            self.well_formed(),
            MIN_TICK <= tick <= MAX_TICK,
        ensures
            match r {
                Ok(t) => t.tick == tick && (exists|i: int|
                    0 <= i < self.ticks@.len() && self.ticks@[i] == t),
                Err(e) => e == ErrorCode::TickOutOfBounds && (forall|i: int|
                    0 <= i < self.ticks@.len() ==> self.ticks@[i].tick != tick),
            },
    {
        match self.tick_offset(tick) {
            Some(i) => Ok(self.ticks[i]),
            None => Err(ErrorCode::TickOutOfBounds),
        }
    }

    /// Stores an updated record for `tick`, leaving every other slot as
    /// it was; fails with `TickOutOfBounds` for a tick this page does
    /// not hold. On failure nothing changes.
    pub fn set_tick_state(&mut self, tick: i32, state: TickState) -> (r: Result<(), ErrorCode>)
        requires
            old(self).well_formed(),
            MIN_TICK <= tick <= MAX_TICK,
            state.tick == tick,
        ensures
            final(self).pool_id == old(self).pool_id,
            final(self).start_tick_index == old(self).start_tick_index,
            final(self).tick_spacing == old(self).tick_spacing,
            match r {
                Ok(()) => {
                    &&& final(self).well_formed()
                    &&& final(self).ticks@.len() == old(self).ticks@.len()
                    &&& exists|i: int|
                        0 <= i < old(self).ticks@.len() && old(self).ticks@[i].tick == tick
                            && final(self).ticks@ == old(self).ticks@.update(i, state)
                },
                Err(e) => {
                    &&& e == ErrorCode::TickOutOfBounds
                    &&& *final(self) == *old(self)
                    &&& forall|i: int|
                        0 <= i < old(self).ticks@.len() ==> old(self).ticks@[i].tick != tick
                },
            },
    {
        match self.tick_offset(tick) {
            Some(i) => {
                self.ticks.set(i, state);
                Ok(())
            },
            None => Err(ErrorCode::TickOutOfBounds),
        }
    }
}

} // verus!
