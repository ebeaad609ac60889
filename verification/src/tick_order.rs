//! Order laws of the tick-to-price mapping: the square-root price is
//! strictly increasing in the tick, so a tick that brackets a price is
//! unique and converting a tick's price back to a tick returns the same
//! tick. Adjacent ticks differ by one binary carry, so after the carry
//! bit both ladders apply the same steps to values separated by a
//! concrete gap; each truncating step keeps enough of that gap.

use vstd::prelude::*;
use vstd::arithmetic::div_mod::{
    lemma_div_is_ordered, lemma_div_multiples_vanish, lemma_div_pos_is_pos,
    lemma_fundamental_div_mod, lemma_fundamental_div_mod_converse, lemma_mod_bound,
};
use vstd::arithmetic::mul::{lemma_mul_inequality, lemma_mul_nonnegative};
use crate::full_math::Q64;
use crate::tick_math::{
    down_chain, down_ratio, ladder_bit, mul_q64, sqrt_price_spec, up_chain, up_ratio, MAX_TICK,
    MIN_TICK,
};

verus! {

/// Every upward ladder ratio is at least one unit in Q64.64.
proof fn lemma_up_ratio_lb(j: int)
    requires
        1 <= j <= 18,
    ensures
        Q64 as int <= up_ratio(j),
{
}

/// Every downward ladder ratio is positive and below one unit.
proof fn lemma_down_ratio_bounds(j: int)
    requires
        1 <= j <= 18,
    ensures
        0 < down_ratio(j) < Q64 as int,
{
}

/// A Q64.64 product is monotone and non-negative over non-negative
/// operands.
proof fn lemma_mul_q64_mono(a: int, b: int, c: int)
    requires
        0 <= a <= b,
        0 <= c,
    ensures
        0 <= mul_q64(a, c) <= mul_q64(b, c),
{
    lemma_mul_nonnegative(a, c);
    lemma_mul_inequality(a, b, c);
    lemma_div_pos_is_pos(a * c, Q64 as int);
    lemma_div_is_ordered(a * c, b * c, Q64 as int);
}

/// Scaling by a ratio below one unit never grows a non-negative value.
proof fn lemma_mul_q64_shrink(a: int, c: int)
    requires
        0 <= a,
        0 <= c <= Q64 as int,
    ensures
        0 <= mul_q64(a, c) <= a,
{
    lemma_mul_nonnegative(a, c);
    lemma_div_pos_is_pos(a * c, Q64 as int);
    lemma_mul_inequality(c, Q64 as int, a);
    assert(c * a == a * c && (Q64 as int) * a == a * (Q64 as int)) by (nonlinear_arith);
    lemma_div_is_ordered(a * c, a * (Q64 as int), Q64 as int);
    lemma_div_multiples_vanish(a, Q64 as int);
}

/// Scaling two values by a ratio of at least one unit keeps all but one
/// unit of their gap.
proof fn lemma_step_gap_up(r1: int, r2: int, d: int)
    requires
        0 <= r1 <= r2,
        Q64 as int <= d,
    ensures
        0 <= mul_q64(r1, d),
        mul_q64(r1, d) <= mul_q64(r2, d),
        mul_q64(r2, d) - mul_q64(r1, d) >= (r2 - r1) - 1,
{
    let q = Q64 as int;
    lemma_mul_q64_mono(r1, r2, d);
    lemma_fundamental_div_mod(r1 * d, q);
    lemma_fundamental_div_mod(r2 * d, q);
    lemma_mod_bound(r1 * d, q);
    lemma_mod_bound(r2 * d, q);
    let q1 = (r1 * d) / q;
    let q2 = (r2 * d) / q;
    assert(q2 - q1 >= (r2 - r1) - 1) by (nonlinear_arith)
        requires
            r1 * d == q * q1 + (r1 * d) % q,
            r2 * d == q * q2 + (r2 * d) % q,
            0 <= (r1 * d) % q < q,
            0 <= (r2 * d) % q < q,
            q <= d,
            0 <= r1 <= r2,
            q == 0x1_0000_0000_0000_0000,
    ;
}

/// A Q64.64 product of a sum is at least the sum of the products.
proof fn lemma_mul_q64_superadd(a: int, b: int, c: int)
    requires
        0 <= a,
        0 <= b,
        0 <= c,
    ensures
        mul_q64(a + b, c) >= mul_q64(a, c) + mul_q64(b, c),
{
    let q = Q64 as int;
    lemma_fundamental_div_mod(a * c, q);
    lemma_fundamental_div_mod(b * c, q);
    lemma_mod_bound(a * c, q);
    lemma_mod_bound(b * c, q);
    let qa = (a * c) / q;
    let qb = (b * c) / q;
    let sa = (a * c) % q;
    let sb = (b * c) % q;
    assert((a + b) * c == q * (qa + qb) + (sa + sb)) by (nonlinear_arith)
        requires
            a * c == q * qa + sa,
            b * c == q * qb + sb,
    ;
    if sa + sb < q {
        lemma_fundamental_div_mod_converse((a + b) * c, q, qa + qb, sa + sb);
    } else {
        assert((a + b) * c == q * (qa + qb + 1) + (sa + sb - q)) by (nonlinear_arith)
            requires
                (a + b) * c == q * (qa + qb) + (sa + sb),
        ;
        lemma_fundamental_div_mod_converse((a + b) * c, q, qa + qb + 1, sa + sb - q);
    }
}

/// Once two tick magnitudes agree above level `i`, an additive gap of
/// more than one unit per remaining upward step survives to the end.
proof fn lemma_chain_gap_up(m1: u32, m2: u32, i: int, g: int)
    requires
        0 <= i <= 18,
        forall|j: int| i < j <= 18 ==> (m1 & #[trigger] ladder_bit(j)) == (m2 & ladder_bit(j)),
        0 <= up_chain(m1, i),
        up_chain(m1, i) + g <= up_chain(m2, i),
        19 - i <= g,
    ensures
        up_chain(m1, 18) < up_chain(m2, 18),
    decreases 18 - i,
{
    if i == 18 {
    } else {
        let c = up_ratio(i + 1);
        lemma_up_ratio_lb(i + 1);
        let r1 = up_chain(m1, i);
        let r2 = up_chain(m2, i);
        assert((m1 & ladder_bit(i + 1)) == (m2 & ladder_bit(i + 1)));
        if m1 & ladder_bit(i + 1) != 0 {
            lemma_step_gap_up(r1, r2, c);
            lemma_chain_gap_up(m1, m2, i + 1, g - 1);
        } else {
            lemma_chain_gap_up(m1, m2, i + 1, g);
        }
    }
}

/// The least gap the downward ladder can leave of an initial gap `g`
/// after steps `i+1..=18`, if every one of those steps were applied.
spec fn down_gap_floor(g: int, i: int) -> int
    decreases 18 - i,
{
    if i >= 18 {
        g
    } else {
        down_gap_floor(mul_q64(g, down_ratio(i + 1)), i + 1)
    }
}

/// The residual gap bound is monotone and non-negative.
proof fn lemma_down_gap_floor_mono(g1: int, g2: int, i: int)
    requires
        0 <= g1 <= g2,
        0 <= i <= 18,
    ensures
        0 <= down_gap_floor(g1, i) <= down_gap_floor(g2, i),
    decreases 18 - i,
{
    if i == 18 {
    } else {
        lemma_down_ratio_bounds(i + 1);
        lemma_mul_q64_mono(g1, g2, down_ratio(i + 1));
        lemma_down_gap_floor_mono(
            mul_q64(g1, down_ratio(i + 1)),
            mul_q64(g2, down_ratio(i + 1)),
            i + 1,
        );
    }
}

/// Once two tick magnitudes agree above level `i`, a gap at level `i`
/// survives the remaining downward steps at least as the residual bound.
proof fn lemma_chain_gap_down(m1: u32, m2: u32, i: int, g: int)
    requires
        0 <= i <= 18,
        forall|j: int| i < j <= 18 ==> (m1 & #[trigger] ladder_bit(j)) == (m2 & ladder_bit(j)),
        0 <= down_chain(m1, i),
        0 <= g,
        down_chain(m1, i) + g <= down_chain(m2, i),
    ensures
        down_chain(m1, 18) + down_gap_floor(g, i) <= down_chain(m2, 18),
    decreases 18 - i,
{
    if i == 18 {
    } else {
        let c = down_ratio(i + 1);
        lemma_down_ratio_bounds(i + 1);
        let r1 = down_chain(m1, i);
        let r2 = down_chain(m2, i);
        assert((m1 & ladder_bit(i + 1)) == (m2 & ladder_bit(i + 1)));
        if m1 & ladder_bit(i + 1) != 0 {
            lemma_mul_q64_mono(r1, r1 + g, c);
            lemma_mul_q64_superadd(r1, g, c);
            lemma_mul_q64_mono(r1 + g, r2, c);
            lemma_chain_gap_down(m1, m2, i + 1, mul_q64(g, c));
        } else {
            lemma_chain_gap_down(m1, m2, i + 1, g);
            lemma_mul_q64_shrink(g, c);
            lemma_down_gap_floor_mono(mul_q64(g, c), g, i + 1);
        }
    }
}

/// Moving one tick up multiplies the ideal price by `sqrt(1.0001)`;
/// the truncated upward ladder keeps a strict increase at every tick.
#[verifier::rlimit(100)]
proof fn lemma_up_adjacent(m: u32, n: u32)
    requires
        m <= 443635,
        n == m + 1,
    ensures
        up_chain(m, 18) < up_chain(n, 18),
{
    if m & 0x1 == 0 {
            assert(n & 0x1 != 0 && n & 0x2 == m & 0x2 && n & 0x4 == m & 0x4 && n & 0x8 == m & 0x8 && n & 0x10 == m & 0x10 && n & 0x20 == m & 0x20 && n & 0x40 == m & 0x40 && n & 0x80 == m & 0x80 && n & 0x100 == m & 0x100 && n & 0x200 == m & 0x200 && n & 0x400 == m & 0x400 && n & 0x800 == m & 0x800 && n & 0x1000 == m & 0x1000 && n & 0x2000 == m & 0x2000 && n & 0x4000 == m & 0x4000 && n & 0x8000 == m & 0x8000 && n & 0x1_0000 == m & 0x1_0000 && n & 0x2_0000 == m & 0x2_0000 && n & 0x4_0000 == m & 0x4_0000) by (bit_vector)
                requires
                    m & 0x1 == 0u32,
                    m <= 443635u32,
                    n == m + 1,
            ;
            assert(up_chain(m, 0) == Q64 as int);
            assert(up_chain(n, 0) == 0x1_0003_46d6_ff11_672aint);
            assert forall|j: int| 0 < j <= 18 implies (m & #[trigger] ladder_bit(j)) == (n
                & ladder_bit(j)) by {}
            lemma_chain_gap_up(m, n, 0, 0x3_46d6_ff11_672aint);
    } else if m & 0x2 == 0 {
            assert(n & 0x1 == 0 && n & 0x2 != 0 && n & 0x4 == m & 0x4 && n & 0x8 == m & 0x8 && n & 0x10 == m & 0x10 && n & 0x20 == m & 0x20 && n & 0x40 == m & 0x40 && n & 0x80 == m & 0x80 && n & 0x100 == m & 0x100 && n & 0x200 == m & 0x200 && n & 0x400 == m & 0x400 && n & 0x800 == m & 0x800 && n & 0x1000 == m & 0x1000 && n & 0x2000 == m & 0x2000 && n & 0x4000 == m & 0x4000 && n & 0x8000 == m & 0x8000 && n & 0x1_0000 == m & 0x1_0000 && n & 0x2_0000 == m & 0x2_0000 && n & 0x4_0000 == m & 0x4_0000) by (bit_vector)
                requires
                    m & 0x1 != 0u32,
                    m & 0x2 == 0u32,
                    m <= 443635u32,
                    n == m + 1,
            ;
            assert(up_chain(m, 0) == 0x1_0003_46d6_ff11_672aint);
            assert(up_chain(n, 0) == Q64 as int);
            assert(up_chain(m, 1) == 0x1_0003_46d6_ff11_672aint);
            assert(up_chain(n, 1) == 0x1_0006_8db8_bac7_10cbint);
            assert forall|j: int| 1 < j <= 18 implies (m & #[trigger] ladder_bit(j)) == (n
                & ladder_bit(j)) by {}
            lemma_chain_gap_up(m, n, 1, 0x3_46e1_bbb5_a9a1int);
    } else if m & 0x4 == 0 {
            assert(n & 0x1 == 0 && n & 0x2 == 0 && n & 0x4 != 0 && n & 0x8 == m & 0x8 && n & 0x10 == m & 0x10 && n & 0x20 == m & 0x20 && n & 0x40 == m & 0x40 && n & 0x80 == m & 0x80 && n & 0x100 == m & 0x100 && n & 0x200 == m & 0x200 && n & 0x400 == m & 0x400 && n & 0x800 == m & 0x800 && n & 0x1000 == m & 0x1000 && n & 0x2000 == m & 0x2000 && n & 0x4000 == m & 0x4000 && n & 0x8000 == m & 0x8000 && n & 0x1_0000 == m & 0x1_0000 && n & 0x2_0000 == m & 0x2_0000 && n & 0x4_0000 == m & 0x4_0000) by (bit_vector)
                requires
                    m & 0x1 != 0u32,
                    m & 0x2 != 0u32,
                    m & 0x4 == 0u32,
                    m <= 443635u32,
                    n == m + 1,
            ;
            assert(up_chain(m, 0) == 0x1_0003_46d6_ff11_672aint);
            assert(up_chain(n, 0) == Q64 as int);
            assert(up_chain(m, 1) == 0x1_0009_d4a5_3344_2b65int);
            assert(up_chain(n, 1) == Q64 as int);
            assert(up_chain(m, 2) == 0x1_0009_d4a5_3344_2b65int);
            assert(up_chain(n, 2) == 0x1_000d_1b9c_68ab_e5f7int);
            assert forall|j: int| 2 < j <= 18 implies (m & #[trigger] ladder_bit(j)) == (n
                & ladder_bit(j)) by {}
            lemma_chain_gap_up(m, n, 2, 0x3_46f7_3567_ba92int);
    } else if m & 0x8 == 0 {
            assert(n & 0x1 == 0 && n & 0x2 == 0 && n & 0x4 == 0 && n & 0x8 != 0 && n & 0x10 == m & 0x10 && n & 0x20 == m & 0x20 && n & 0x40 == m & 0x40 && n & 0x80 == m & 0x80 && n & 0x100 == m & 0x100 && n & 0x200 == m & 0x200 && n & 0x400 == m & 0x400 && n & 0x800 == m & 0x800 && n & 0x1000 == m & 0x1000 && n & 0x2000 == m & 0x2000 && n & 0x4000 == m & 0x4000 && n & 0x8000 == m & 0x8000 && n & 0x1_0000 == m & 0x1_0000 && n & 0x2_0000 == m & 0x2_0000 && n & 0x4_0000 == m & 0x4_0000) by (bit_vector)
                requires
                    m & 0x1 != 0u32,
                    m & 0x2 != 0u32,
                    m & 0x4 != 0u32,
                    m & 0x8 == 0u32,
                    m <= 443635u32,
                    n == m + 1,
            ;
            assert(up_chain(m, 0) == 0x1_0003_46d6_ff11_672aint);
            assert(up_chain(n, 0) == Q64 as int);
            assert(up_chain(m, 1) == 0x1_0009_d4a5_3344_2b65int);
            assert(up_chain(n, 1) == Q64 as int);
            assert(up_chain(m, 2) == 0x1_0016_f0c2_77c2_b1e2int);
            assert(up_chain(n, 2) == Q64 as int);
            assert(up_chain(m, 3) == 0x1_0016_f0c2_77c2_b1e2int);
            assert(up_chain(n, 3) == 0x1_001a_37e4_a234_cb08int);
            assert forall|j: int| 3 < j <= 18 implies (m & #[trigger] ladder_bit(j)) == (n
                & ladder_bit(j)) by {}
            lemma_chain_gap_up(m, n, 3, 0x3_4722_2a72_1926int);
    } else if m & 0x10 == 0 {
            assert(n & 0x1 == 0 && n & 0x2 == 0 && n & 0x4 == 0 && n & 0x8 == 0 && n & 0x10 != 0 && n & 0x20 == m & 0x20 && n & 0x40 == m & 0x40 && n & 0x80 == m & 0x80 && n & 0x100 == m & 0x100 && n & 0x200 == m & 0x200 && n & 0x400 == m & 0x400 && n & 0x800 == m & 0x800 && n & 0x1000 == m & 0x1000 && n & 0x2000 == m & 0x2000 && n & 0x4000 == m & 0x4000 && n & 0x8000 == m & 0x8000 && n & 0x1_0000 == m & 0x1_0000 && n & 0x2_0000 == m & 0x2_0000 && n & 0x4_0000 == m & 0x4_0000) by (bit_vector)
                requires
                    m & 0x1 != 0u32,
                    m & 0x2 != 0u32,
                    m & 0x4 != 0u32,
                    m & 0x8 != 0u32,
                    m & 0x10 == 0u32,
                    m <= 443635u32,
                    n == m + 1,
            ;
            assert(up_chain(m, 0) == 0x1_0003_46d6_ff11_672aint);
            assert(up_chain(n, 0) == Q64 as int);
            assert(up_chain(m, 1) == 0x1_0009_d4a5_3344_2b65int);
            assert(up_chain(n, 1) == Q64 as int);
            assert(up_chain(m, 2) == 0x1_0016_f0c2_77c2_b1e2int);
            assert(up_chain(n, 2) == Q64 as int);
            assert(up_chain(m, 3) == 0x1_0031_2b00_8fee_64b3int);
            assert(up_chain(n, 3) == Q64 as int);
            assert(up_chain(m, 4) == 0x1_0031_2b00_8fee_64b3int);
            assert(up_chain(n, 4) == 0x1_0034_7278_ab0e_92adint);
            assert forall|j: int| 4 < j <= 18 implies (m & #[trigger] ladder_bit(j)) == (n
                & ladder_bit(j)) by {}
            lemma_chain_gap_up(m, n, 4, 0x3_4778_1b20_2dfaint);
    } else if m & 0x20 == 0 {
            assert(n & 0x1 == 0 && n & 0x2 == 0 && n & 0x4 == 0 && n & 0x8 == 0 && n & 0x10 == 0 && n & 0x20 != 0 && n & 0x40 == m & 0x40 && n & 0x80 == m & 0x80 && n & 0x100 == m & 0x100 && n & 0x200 == m & 0x200 && n & 0x400 == m & 0x400 && n & 0x800 == m & 0x800 && n & 0x1000 == m & 0x1000 && n & 0x2000 == m & 0x2000 && n & 0x4000 == m & 0x4000 && n & 0x8000 == m & 0x8000 && n & 0x1_0000 == m & 0x1_0000 && n & 0x2_0000 == m & 0x2_0000 && n & 0x4_0000 == m & 0x4_0000) by (bit_vector)
                requires
                    m & 0x1 != 0u32,
                    m & 0x2 != 0u32,
                    m & 0x4 != 0u32,
                    m & 0x8 != 0u32,
                    m & 0x10 != 0u32,
                    m & 0x20 == 0u32,
                    m <= 443635u32,
                    n == m + 1,
            ;
            assert(up_chain(m, 0) == 0x1_0003_46d6_ff11_672aint);
            assert(up_chain(n, 0) == Q64 as int);
            assert(up_chain(m, 1) == 0x1_0009_d4a5_3344_2b65int);
            assert(up_chain(n, 1) == Q64 as int);
            assert(up_chain(m, 2) == 0x1_0016_f0c2_77c2_b1e2int);
            assert(up_chain(n, 2) == Q64 as int);
            assert(up_chain(m, 3) == 0x1_0031_2b00_8fee_64b3int);
            assert(up_chain(n, 3) == Q64 as int);
            assert(up_chain(m, 4) == 0x1_0065_a78b_f36d_76adint);
            assert(up_chain(n, 4) == Q64 as int);
            assert(up_chain(m, 5) == 0x1_0065_a78b_f36d_76adint);
            assert(up_chain(n, 5) == 0x1_0068_efb0_0a52_5480int);
            assert forall|j: int| 5 < j <= 18 implies (m & #[trigger] ladder_bit(j)) == (n
                & ladder_bit(j)) by {}
            lemma_chain_gap_up(m, n, 5, 0x3_4824_16e4_ddd3int);
    } else if m & 0x40 == 0 {
            assert(n & 0x1 == 0 && n & 0x2 == 0 && n & 0x4 == 0 && n & 0x8 == 0 && n & 0x10 == 0 && n & 0x20 == 0 && n & 0x40 != 0 && n & 0x80 == m & 0x80 && n & 0x100 == m & 0x100 && n & 0x200 == m & 0x200 && n & 0x400 == m & 0x400 && n & 0x800 == m & 0x800 && n & 0x1000 == m & 0x1000 && n & 0x2000 == m & 0x2000 && n & 0x4000 == m & 0x4000 && n & 0x8000 == m & 0x8000 && n & 0x1_0000 == m & 0x1_0000 && n & 0x2_0000 == m & 0x2_0000 && n & 0x4_0000 == m & 0x4_0000) by (bit_vector)
                requires
                    m & 0x1 != 0u32,
                    m & 0x2 != 0u32,
                    m & 0x4 != 0u32,
                    m & 0x8 != 0u32,
                    m & 0x10 != 0u32,
                    m & 0x20 != 0u32,
                    m & 0x40 == 0u32,
                    m <= 443635u32,
                    n == m + 1,
            ;
            assert(up_chain(m, 0) == 0x1_0003_46d6_ff11_672aint);
            assert(up_chain(n, 0) == Q64 as int);
            assert(up_chain(m, 1) == 0x1_0009_d4a5_3344_2b65int);
            assert(up_chain(n, 1) == Q64 as int);
            assert(up_chain(m, 2) == 0x1_0016_f0c2_77c2_b1e2int);
            assert(up_chain(n, 2) == Q64 as int);
            assert(up_chain(m, 3) == 0x1_0031_2b00_8fee_64b3int);
            assert(up_chain(n, 3) == Q64 as int);
            assert(up_chain(m, 4) == 0x1_0065_a78b_f36d_76adint);
            assert(up_chain(n, 4) == Q64 as int);
            assert(up_chain(m, 5) == 0x1_00ce_c0e7_3bed_a15cint);
            assert(up_chain(n, 5) == Q64 as int);
            assert(up_chain(m, 6) == 0x1_00ce_c0e7_3bed_a15cint);
            assert(up_chain(n, 6) == 0x1_00d2_0a63_b417_3839int);
            assert forall|j: int| 6 < j <= 18 implies (m & #[trigger] ladder_bit(j)) == (n
                & ladder_bit(j)) by {}
            lemma_chain_gap_up(m, n, 6, 0x3_497c_7829_96ddint);
    } else if m & 0x80 == 0 {
            assert(n & 0x1 == 0 && n & 0x2 == 0 && n & 0x4 == 0 && n & 0x8 == 0 && n & 0x10 == 0 && n & 0x20 == 0 && n & 0x40 == 0 && n & 0x80 != 0 && n & 0x100 == m & 0x100 && n & 0x200 == m & 0x200 && n & 0x400 == m & 0x400 && n & 0x800 == m & 0x800 && n & 0x1000 == m & 0x1000 && n & 0x2000 == m & 0x2000 && n & 0x4000 == m & 0x4000 && n & 0x8000 == m & 0x8000 && n & 0x1_0000 == m & 0x1_0000 && n & 0x2_0000 == m & 0x2_0000 && n & 0x4_0000 == m & 0x4_0000) by (bit_vector)
                requires
                    m & 0x1 != 0u32,
                    m & 0x2 != 0u32,
                    m & 0x4 != 0u32,
                    m & 0x8 != 0u32,
                    m & 0x10 != 0u32,
                    m & 0x20 != 0u32,
                    m & 0x40 != 0u32,
                    m & 0x80 == 0u32,
                    m <= 443635u32,
                    n == m + 1,
            ;
            assert(up_chain(m, 0) == 0x1_0003_46d6_ff11_672aint);
            assert(up_chain(n, 0) == Q64 as int);
            assert(up_chain(m, 1) == 0x1_0009_d4a5_3344_2b65int);
            assert(up_chain(n, 1) == Q64 as int);
            assert(up_chain(m, 2) == 0x1_0016_f0c2_77c2_b1e2int);
            assert(up_chain(n, 2) == Q64 as int);
            assert(up_chain(m, 3) == 0x1_0031_2b00_8fee_64b3int);
            assert(up_chain(n, 3) == Q64 as int);
            assert(up_chain(m, 4) == 0x1_0065_a78b_f36d_76adint);
            assert(up_chain(n, 4) == Q64 as int);
            assert(up_chain(m, 5) == 0x1_00ce_c0e7_3bed_a15cint);
            assert(up_chain(n, 5) == Q64 as int);
            assert(up_chain(m, 6) == 0x1_01a1_74ed_91c3_16aaint);
            assert(up_chain(n, 6) == Q64 as int);
            assert(up_chain(m, 7) == 0x1_01a1_74ed_91c3_16aaint);
            assert(up_chain(n, 7) == 0x1_01a4_c11c_742d_d772int);
            assert forall|j: int| 7 < j <= 18 implies (m & #[trigger] ladder_bit(j)) == (n
                & ladder_bit(j)) by {}
            lemma_chain_gap_up(m, n, 7, 0x3_4c2e_e26a_c0c8int);
    } else if m & 0x100 == 0 {
            assert(n & 0x1 == 0 && n & 0x2 == 0 && n & 0x4 == 0 && n & 0x8 == 0 && n & 0x10 == 0 && n & 0x20 == 0 && n & 0x40 == 0 && n & 0x80 == 0 && n & 0x100 != 0 && n & 0x200 == m & 0x200 && n & 0x400 == m & 0x400 && n & 0x800 == m & 0x800 && n & 0x1000 == m & 0x1000 && n & 0x2000 == m & 0x2000 && n & 0x4000 == m & 0x4000 && n & 0x8000 == m & 0x8000 && n & 0x1_0000 == m & 0x1_0000 && n & 0x2_0000 == m & 0x2_0000 && n & 0x4_0000 == m & 0x4_0000) by (bit_vector)
                requires
                    m & 0x1 != 0u32,
                    m & 0x2 != 0u32,
                    m & 0x4 != 0u32,
                    m & 0x8 != 0u32,
                    m & 0x10 != 0u32,
                    m & 0x20 != 0u32,
                    m & 0x40 != 0u32,
                    m & 0x80 != 0u32,
                    m & 0x100 == 0u32,
                    m <= 443635u32,
                    n == m + 1,
            ;
            assert(up_chain(m, 0) == 0x1_0003_46d6_ff11_672aint);
            assert(up_chain(n, 0) == Q64 as int);
            assert(up_chain(m, 1) == 0x1_0009_d4a5_3344_2b65int);
            assert(up_chain(n, 1) == Q64 as int);
            assert(up_chain(m, 2) == 0x1_0016_f0c2_77c2_b1e2int);
            assert(up_chain(n, 2) == Q64 as int);
            assert(up_chain(m, 3) == 0x1_0031_2b00_8fee_64b3int);
            assert(up_chain(n, 3) == Q64 as int);
            assert(up_chain(m, 4) == 0x1_0065_a78b_f36d_76adint);
            assert(up_chain(n, 4) == Q64 as int);
            assert(up_chain(m, 5) == 0x1_00ce_c0e7_3bed_a15cint);
            assert(up_chain(n, 5) == Q64 as int);
            assert(up_chain(m, 6) == 0x1_01a1_74ed_91c3_16aaint);
            assert(up_chain(n, 6) == Q64 as int);
            assert(up_chain(m, 7) == 0x1_0348_e428_c341_6ac9int);
            assert(up_chain(n, 7) == Q64 as int);
            assert(up_chain(m, 8) == 0x1_0348_e428_c341_6ac9int);
            assert(up_chain(n, 8) == 0x1_034c_35c3_1f64_cfa6int);
            assert forall|j: int| 8 < j <= 18 implies (m & #[trigger] ladder_bit(j)) == (n
                & ladder_bit(j)) by {}
            lemma_chain_gap_up(m, n, 8, 0x3_519a_5c23_64ddint);
    } else if m & 0x200 == 0 {
            assert(n & 0x1 == 0 && n & 0x2 == 0 && n & 0x4 == 0 && n & 0x8 == 0 && n & 0x10 == 0 && n & 0x20 == 0 && n & 0x40 == 0 && n & 0x80 == 0 && n & 0x100 == 0 && n & 0x200 != 0 && n & 0x400 == m & 0x400 && n & 0x800 == m & 0x800 && n & 0x1000 == m & 0x1000 && n & 0x2000 == m & 0x2000 && n & 0x4000 == m & 0x4000 && n & 0x8000 == m & 0x8000 && n & 0x1_0000 == m & 0x1_0000 && n & 0x2_0000 == m & 0x2_0000 && n & 0x4_0000 == m & 0x4_0000) by (bit_vector)
                requires
                    m & 0x1 != 0u32,
                    m & 0x2 != 0u32,
                    m & 0x4 != 0u32,
                    m & 0x8 != 0u32,
                    m & 0x10 != 0u32,
                    m & 0x20 != 0u32,
                    m & 0x40 != 0u32,
                    m & 0x80 != 0u32,
                    m & 0x100 != 0u32,
                    m & 0x200 == 0u32,
                    m <= 443635u32,
                    n == m + 1,
            ;
            assert(up_chain(m, 0) == 0x1_0003_46d6_ff11_672aint);
            assert(up_chain(n, 0) == Q64 as int);
            assert(up_chain(m, 1) == 0x1_0009_d4a5_3344_2b65int);
            assert(up_chain(n, 1) == Q64 as int);
            assert(up_chain(m, 2) == 0x1_0016_f0c2_77c2_b1e2int);
            assert(up_chain(n, 2) == Q64 as int);
            assert(up_chain(m, 3) == 0x1_0031_2b00_8fee_64b3int);
            assert(up_chain(n, 3) == Q64 as int);
            assert(up_chain(m, 4) == 0x1_0065_a78b_f36d_76adint);
            assert(up_chain(n, 4) == Q64 as int);
            assert(up_chain(m, 5) == 0x1_00ce_c0e7_3bed_a15cint);
            assert(up_chain(n, 5) == Q64 as int);
            assert(up_chain(m, 6) == 0x1_01a1_74ed_91c3_16aaint);
            assert(up_chain(n, 6) == Q64 as int);
            assert(up_chain(m, 7) == 0x1_0348_e428_c341_6ac9int);
            assert(up_chain(n, 7) == Q64 as int);
            assert(up_chain(m, 8) == 0x1_069f_eeec_b133_5058int);
            assert(up_chain(n, 8) == Q64 as int);
            assert(up_chain(m, 9) == 0x1_069f_eeec_b133_5058int);
            assert(up_chain(n, 9) == 0x1_06a3_4b78_c8aa_ffbfint);
            assert forall|j: int| 9 < j <= 18 implies (m & #[trigger] ladder_bit(j)) == (n
                & ladder_bit(j)) by {}
            lemma_chain_gap_up(m, n, 9, 0x3_5c8c_1777_af67int);
    } else {
        lemma_up_adjacent_high(m, n);
    }
}

/// The high-carry cases of `lemma_up_adjacent`: the ten low bits of
/// the magnitude are all set.
#[verifier::rlimit(100)]
proof fn lemma_up_adjacent_high(m: u32, n: u32)
    requires
        m <= 443635,
        n == m + 1,
        m & 0x1 != 0,
        m & 0x2 != 0,
        m & 0x4 != 0,
        m & 0x8 != 0,
        m & 0x10 != 0,
        m & 0x20 != 0,
        m & 0x40 != 0,
        m & 0x80 != 0,
        m & 0x100 != 0,
        m & 0x200 != 0,
    ensures
        up_chain(m, 18) < up_chain(n, 18),
{
    if m & 0x400 == 0 {
            assert(n & 0x1 == 0 && n & 0x2 == 0 && n & 0x4 == 0 && n & 0x8 == 0 && n & 0x10 == 0 && n & 0x20 == 0 && n & 0x40 == 0 && n & 0x80 == 0 && n & 0x100 == 0 && n & 0x200 == 0 && n & 0x400 != 0 && n & 0x800 == m & 0x800 && n & 0x1000 == m & 0x1000 && n & 0x2000 == m & 0x2000 && n & 0x4000 == m & 0x4000 && n & 0x8000 == m & 0x8000 && n & 0x1_0000 == m & 0x1_0000 && n & 0x2_0000 == m & 0x2_0000 && n & 0x4_0000 == m & 0x4_0000) by (bit_vector)
                requires
                    m & 0x1 != 0u32,
                    m & 0x2 != 0u32,
                    m & 0x4 != 0u32,
                    m & 0x8 != 0u32,
                    m & 0x10 != 0u32,
                    m & 0x20 != 0u32,
                    m & 0x40 != 0u32,
                    m & 0x80 != 0u32,
                    m & 0x100 != 0u32,
                    m & 0x200 != 0u32,
                    m & 0x400 == 0u32,
                    m <= 443635u32,
                    n == m + 1,
            ;
            assert(up_chain(m, 0) == 0x1_0003_46d6_ff11_672aint);
            assert(up_chain(n, 0) == Q64 as int);
            assert(up_chain(m, 1) == 0x1_0009_d4a5_3344_2b65int);
            assert(up_chain(n, 1) == Q64 as int);
            assert(up_chain(m, 2) == 0x1_0016_f0c2_77c2_b1e2int);
            assert(up_chain(n, 2) == Q64 as int);
            assert(up_chain(m, 3) == 0x1_0031_2b00_8fee_64b3int);
            assert(up_chain(n, 3) == Q64 as int);
            assert(up_chain(m, 4) == 0x1_0065_a78b_f36d_76adint);
            assert(up_chain(n, 4) == Q64 as int);
            assert(up_chain(m, 5) == 0x1_00ce_c0e7_3bed_a15cint);
            assert(up_chain(n, 5) == Q64 as int);
            assert(up_chain(m, 6) == 0x1_01a1_74ed_91c3_16aaint);
            assert(up_chain(n, 6) == Q64 as int);
            assert(up_chain(m, 7) == 0x1_0348_e428_c341_6ac9int);
            assert(up_chain(n, 7) == Q64 as int);
            assert(up_chain(m, 8) == 0x1_069f_eeec_b133_5058int);
            assert(up_chain(n, 8) == Q64 as int);
            assert(up_chain(m, 9) == 0x1_0d6f_33c8_21e3_0dfeint);
            assert(up_chain(n, 9) == Q64 as int);
            assert(up_chain(m, 10) == 0x1_0d6f_33c8_21e3_0dfeint);
            assert(up_chain(n, 10) == 0x1_0d72_a6a4_6ccd_8bceint);
            assert forall|j: int| 10 < j <= 18 implies (m & #[trigger] ladder_bit(j)) == (n
                & ladder_bit(j)) by {}
            lemma_chain_gap_up(m, n, 10, 0x3_72dc_4aea_7dd0int);
    } else if m & 0x800 == 0 {
            assert(n & 0x1 == 0 && n & 0x2 == 0 && n & 0x4 == 0 && n & 0x8 == 0 && n & 0x10 == 0 && n & 0x20 == 0 && n & 0x40 == 0 && n & 0x80 == 0 && n & 0x100 == 0 && n & 0x200 == 0 && n & 0x400 == 0 && n & 0x800 != 0 && n & 0x1000 == m & 0x1000 && n & 0x2000 == m & 0x2000 && n & 0x4000 == m & 0x4000 && n & 0x8000 == m & 0x8000 && n & 0x1_0000 == m & 0x1_0000 && n & 0x2_0000 == m & 0x2_0000 && n & 0x4_0000 == m & 0x4_0000) by (bit_vector)
                requires
                    m & 0x1 != 0u32,
                    m & 0x2 != 0u32,
                    m & 0x4 != 0u32,
                    m & 0x8 != 0u32,
                    m & 0x10 != 0u32,
                    m & 0x20 != 0u32,
                    m & 0x40 != 0u32,
                    m & 0x80 != 0u32,
                    m & 0x100 != 0u32,
                    m & 0x200 != 0u32,
                    m & 0x400 != 0u32,
                    m & 0x800 == 0u32,
                    m <= 443635u32,
                    n == m + 1,
            ;
            assert(up_chain(m, 0) == 0x1_0003_46d6_ff11_672aint);
            assert(up_chain(n, 0) == Q64 as int);
            assert(up_chain(m, 1) == 0x1_0009_d4a5_3344_2b65int);
            assert(up_chain(n, 1) == Q64 as int);
            assert(up_chain(m, 2) == 0x1_0016_f0c2_77c2_b1e2int);
            assert(up_chain(n, 2) == Q64 as int);
            assert(up_chain(m, 3) == 0x1_0031_2b00_8fee_64b3int);
            assert(up_chain(n, 3) == Q64 as int);
            assert(up_chain(m, 4) == 0x1_0065_a78b_f36d_76adint);
            assert(up_chain(n, 4) == Q64 as int);
            assert(up_chain(m, 5) == 0x1_00ce_c0e7_3bed_a15cint);
            assert(up_chain(n, 5) == Q64 as int);
            assert(up_chain(m, 6) == 0x1_01a1_74ed_91c3_16aaint);
            assert(up_chain(n, 6) == Q64 as int);
            assert(up_chain(m, 7) == 0x1_0348_e428_c341_6ac9int);
            assert(up_chain(n, 7) == Q64 as int);
            assert(up_chain(m, 8) == 0x1_069f_eeec_b133_5058int);
            assert(up_chain(n, 8) == Q64 as int);
            assert(up_chain(m, 9) == 0x1_0d6f_33c8_21e3_0dfeint);
            assert(up_chain(n, 9) == Q64 as int);
            assert(up_chain(m, 10) == 0x1_1b96_8451_840e_de08int);
            assert(up_chain(n, 10) == Q64 as int);
            assert(up_chain(m, 11) == 0x1_1b96_8451_840e_de08int);
            assert(up_chain(n, 11) == 0x1_1b9a_258e_6392_8596int);
            assert forall|j: int| 11 < j <= 18 implies (m & #[trigger] ladder_bit(j)) == (n
                & ladder_bit(j)) by {}
            lemma_chain_gap_up(m, n, 11, 0x3_a13c_df83_a78eint);
    } else if m & 0x1000 == 0 {
            assert(n & 0x1 == 0 && n & 0x2 == 0 && n & 0x4 == 0 && n & 0x8 == 0 && n & 0x10 == 0 && n & 0x20 == 0 && n & 0x40 == 0 && n & 0x80 == 0 && n & 0x100 == 0 && n & 0x200 == 0 && n & 0x400 == 0 && n & 0x800 == 0 && n & 0x1000 != 0 && n & 0x2000 == m & 0x2000 && n & 0x4000 == m & 0x4000 && n & 0x8000 == m & 0x8000 && n & 0x1_0000 == m & 0x1_0000 && n & 0x2_0000 == m & 0x2_0000 && n & 0x4_0000 == m & 0x4_0000) by (bit_vector)
                requires
                    m & 0x1 != 0u32,
                    m & 0x2 != 0u32,
                    m & 0x4 != 0u32,
                    m & 0x8 != 0u32,
                    m & 0x10 != 0u32,
                    m & 0x20 != 0u32,
                    m & 0x40 != 0u32,
                    m & 0x80 != 0u32,
                    m & 0x100 != 0u32,
                    m & 0x200 != 0u32,
                    m & 0x400 != 0u32,
                    m & 0x800 != 0u32,
                    m & 0x1000 == 0u32,
                    m <= 443635u32,
                    n == m + 1,
            ;
            assert(up_chain(m, 0) == 0x1_0003_46d6_ff11_672aint);
            assert(up_chain(n, 0) == Q64 as int);
            assert(up_chain(m, 1) == 0x1_0009_d4a5_3344_2b65int);
            assert(up_chain(n, 1) == Q64 as int);
            assert(up_chain(m, 2) == 0x1_0016_f0c2_77c2_b1e2int);
            assert(up_chain(n, 2) == Q64 as int);
            assert(up_chain(m, 3) == 0x1_0031_2b00_8fee_64b3int);
            assert(up_chain(n, 3) == Q64 as int);
            assert(up_chain(m, 4) == 0x1_0065_a78b_f36d_76adint);
            assert(up_chain(n, 4) == Q64 as int);
            assert(up_chain(m, 5) == 0x1_00ce_c0e7_3bed_a15cint);
            assert(up_chain(n, 5) == Q64 as int);
            assert(up_chain(m, 6) == 0x1_01a1_74ed_91c3_16aaint);
            assert(up_chain(n, 6) == Q64 as int);
            assert(up_chain(m, 7) == 0x1_0348_e428_c341_6ac9int);
            assert(up_chain(n, 7) == Q64 as int);
            assert(up_chain(m, 8) == 0x1_069f_eeec_b133_5058int);
            assert(up_chain(n, 8) == Q64 as int);
            assert(up_chain(m, 9) == 0x1_0d6f_33c8_21e3_0dfeint);
            assert(up_chain(n, 9) == Q64 as int);
            assert(up_chain(m, 10) == 0x1_1b96_8451_840e_de08int);
            assert(up_chain(n, 10) == Q64 as int);
            assert(up_chain(m, 11) == 0x1_3a2a_266c_32f0_92b0int);
            assert(up_chain(n, 11) == Q64 as int);
            assert(up_chain(m, 12) == 0x1_3a2a_266c_32f0_92b0int);
            assert(up_chain(n, 12) == 0x1_3a2e_2bda_04f8_379fint);
            assert forall|j: int| 12 < j <= 18 implies (m & #[trigger] ladder_bit(j)) == (n
                & ladder_bit(j)) by {}
            lemma_chain_gap_up(m, n, 12, 0x4_056d_d207_a4efint);
    } else if m & 0x2000 == 0 {
            assert(n & 0x1 == 0 && n & 0x2 == 0 && n & 0x4 == 0 && n & 0x8 == 0 && n & 0x10 == 0 && n & 0x20 == 0 && n & 0x40 == 0 && n & 0x80 == 0 && n & 0x100 == 0 && n & 0x200 == 0 && n & 0x400 == 0 && n & 0x800 == 0 && n & 0x1000 == 0 && n & 0x2000 != 0 && n & 0x4000 == m & 0x4000 && n & 0x8000 == m & 0x8000 && n & 0x1_0000 == m & 0x1_0000 && n & 0x2_0000 == m & 0x2_0000 && n & 0x4_0000 == m & 0x4_0000) by (bit_vector)
                requires
                    m & 0x1 != 0u32,
                    m & 0x2 != 0u32,
                    m & 0x4 != 0u32,
                    m & 0x8 != 0u32,
                    m & 0x10 != 0u32,
                    m & 0x20 != 0u32,
                    m & 0x40 != 0u32,
                    m & 0x80 != 0u32,
                    m & 0x100 != 0u32,
                    m & 0x200 != 0u32,
                    m & 0x400 != 0u32,
                    m & 0x800 != 0u32,
                    m & 0x1000 != 0u32,
                    m & 0x2000 == 0u32,
                    m <= 443635u32,
                    n == m + 1,
            ;
            assert(up_chain(m, 0) == 0x1_0003_46d6_ff11_672aint);
            assert(up_chain(n, 0) == Q64 as int);
            assert(up_chain(m, 1) == 0x1_0009_d4a5_3344_2b65int);
            assert(up_chain(n, 1) == Q64 as int);
            assert(up_chain(m, 2) == 0x1_0016_f0c2_77c2_b1e2int);
            assert(up_chain(n, 2) == Q64 as int);
            assert(up_chain(m, 3) == 0x1_0031_2b00_8fee_64b3int);
            assert(up_chain(n, 3) == Q64 as int);
            assert(up_chain(m, 4) == 0x1_0065_a78b_f36d_76adint);
            assert(up_chain(n, 4) == Q64 as int);
            assert(up_chain(m, 5) == 0x1_00ce_c0e7_3bed_a15cint);
            assert(up_chain(n, 5) == Q64 as int);
            assert(up_chain(m, 6) == 0x1_01a1_74ed_91c3_16aaint);
            assert(up_chain(n, 6) == Q64 as int);
            assert(up_chain(m, 7) == 0x1_0348_e428_c341_6ac9int);
            assert(up_chain(n, 7) == Q64 as int);
            assert(up_chain(m, 8) == 0x1_069f_eeec_b133_5058int);
            assert(up_chain(n, 8) == Q64 as int);
            assert(up_chain(m, 9) == 0x1_0d6f_33c8_21e3_0dfeint);
            assert(up_chain(n, 9) == Q64 as int);
            assert(up_chain(m, 10) == 0x1_1b96_8451_840e_de08int);
            assert(up_chain(n, 10) == Q64 as int);
            assert(up_chain(m, 11) == 0x1_3a2a_266c_32f0_92b0int);
            assert(up_chain(n, 11) == Q64 as int);
            assert(up_chain(m, 12) == 0x1_8190_5c84_405e_6589int);
            assert(up_chain(n, 12) == Q64 as int);
            assert(up_chain(m, 13) == 0x1_8190_5c84_405e_6589int);
            assert(up_chain(n, 13) == 0x1_8195_4be6_9e0d_a8feint);
            assert forall|j: int| 13 < j <= 18 implies (m & #[trigger] ladder_bit(j)) == (n
                & ladder_bit(j)) by {}
            lemma_chain_gap_up(m, n, 13, 0x4_ef62_5daf_4375int);
    } else if m & 0x4000 == 0 {
            assert(n & 0x1 == 0 && n & 0x2 == 0 && n & 0x4 == 0 && n & 0x8 == 0 && n & 0x10 == 0 && n & 0x20 == 0 && n & 0x40 == 0 && n & 0x80 == 0 && n & 0x100 == 0 && n & 0x200 == 0 && n & 0x400 == 0 && n & 0x800 == 0 && n & 0x1000 == 0 && n & 0x2000 == 0 && n & 0x4000 != 0 && n & 0x8000 == m & 0x8000 && n & 0x1_0000 == m & 0x1_0000 && n & 0x2_0000 == m & 0x2_0000 && n & 0x4_0000 == m & 0x4_0000) by (bit_vector)
                requires
                    m & 0x1 != 0u32,
                    m & 0x2 != 0u32,
                    m & 0x4 != 0u32,
                    m & 0x8 != 0u32,
                    m & 0x10 != 0u32,
                    m & 0x20 != 0u32,
                    m & 0x40 != 0u32,
                    m & 0x80 != 0u32,
                    m & 0x100 != 0u32,
                    m & 0x200 != 0u32,
                    m & 0x400 != 0u32,
                    m & 0x800 != 0u32,
                    m & 0x1000 != 0u32,
                    m & 0x2000 != 0u32,
                    m & 0x4000 == 0u32,
                    m <= 443635u32,
                    n == m + 1,
            ;
            assert(up_chain(m, 0) == 0x1_0003_46d6_ff11_672aint);
            assert(up_chain(n, 0) == Q64 as int);
            assert(up_chain(m, 1) == 0x1_0009_d4a5_3344_2b65int);
            assert(up_chain(n, 1) == Q64 as int);
            assert(up_chain(m, 2) == 0x1_0016_f0c2_77c2_b1e2int);
            assert(up_chain(n, 2) == Q64 as int);
            assert(up_chain(m, 3) == 0x1_0031_2b00_8fee_64b3int);
            assert(up_chain(n, 3) == Q64 as int);
            assert(up_chain(m, 4) == 0x1_0065_a78b_f36d_76adint);
            assert(up_chain(n, 4) == Q64 as int);
            assert(up_chain(m, 5) == 0x1_00ce_c0e7_3bed_a15cint);
            assert(up_chain(n, 5) == Q64 as int);
            assert(up_chain(m, 6) == 0x1_01a1_74ed_91c3_16aaint);
            assert(up_chain(n, 6) == Q64 as int);
            assert(up_chain(m, 7) == 0x1_0348_e428_c341_6ac9int);
            assert(up_chain(n, 7) == Q64 as int);
            assert(up_chain(m, 8) == 0x1_069f_eeec_b133_5058int);
            assert(up_chain(n, 8) == Q64 as int);
            assert(up_chain(m, 9) == 0x1_0d6f_33c8_21e3_0dfeint);
            assert(up_chain(n, 9) == Q64 as int);
            assert(up_chain(m, 10) == 0x1_1b96_8451_840e_de08int);
            assert(up_chain(n, 10) == Q64 as int);
            assert(up_chain(m, 11) == 0x1_3a2a_266c_32f0_92b0int);
            assert(up_chain(n, 11) == Q64 as int);
            assert(up_chain(m, 12) == 0x1_8190_5c84_405e_6589int);
            assert(up_chain(n, 12) == Q64 as int);
            assert(up_chain(m, 13) == 0x2_44ba_f679_5ea0_f745int);
            assert(up_chain(n, 13) == Q64 as int);
            assert(up_chain(m, 14) == 0x2_44ba_f679_5ea0_f745int);
            assert(up_chain(n, 14) == 0x2_44c2_655d_185a_0290int);
            assert forall|j: int| 14 < j <= 18 implies (m & #[trigger] ladder_bit(j)) == (n
                & ladder_bit(j)) by {}
            lemma_chain_gap_up(m, n, 14, 0x7_6ee3_b9b9_0b4bint);
    } else if m & 0x8000 == 0 {
            assert(n & 0x1 == 0 && n & 0x2 == 0 && n & 0x4 == 0 && n & 0x8 == 0 && n & 0x10 == 0 && n & 0x20 == 0 && n & 0x40 == 0 && n & 0x80 == 0 && n & 0x100 == 0 && n & 0x200 == 0 && n & 0x400 == 0 && n & 0x800 == 0 && n & 0x1000 == 0 && n & 0x2000 == 0 && n & 0x4000 == 0 && n & 0x8000 != 0 && n & 0x1_0000 == m & 0x1_0000 && n & 0x2_0000 == m & 0x2_0000 && n & 0x4_0000 == m & 0x4_0000) by (bit_vector)
                requires
                    m & 0x1 != 0u32,
                    m & 0x2 != 0u32,
                    m & 0x4 != 0u32,
                    m & 0x8 != 0u32,
                    m & 0x10 != 0u32,
                    m & 0x20 != 0u32,
                    m & 0x40 != 0u32,
                    m & 0x80 != 0u32,
                    m & 0x100 != 0u32,
                    m & 0x200 != 0u32,
                    m & 0x400 != 0u32,
                    m & 0x800 != 0u32,
                    m & 0x1000 != 0u32,
                    m & 0x2000 != 0u32,
                    m & 0x4000 != 0u32,
                    m & 0x8000 == 0u32,
                    m <= 443635u32,
                    n == m + 1,
            ;
            assert(up_chain(m, 0) == 0x1_0003_46d6_ff11_672aint);
            assert(up_chain(n, 0) == Q64 as int);
            assert(up_chain(m, 1) == 0x1_0009_d4a5_3344_2b65int);
            assert(up_chain(n, 1) == Q64 as int);
            assert(up_chain(m, 2) == 0x1_0016_f0c2_77c2_b1e2int);
            assert(up_chain(n, 2) == Q64 as int);
            assert(up_chain(m, 3) == 0x1_0031_2b00_8fee_64b3int);
            assert(up_chain(n, 3) == Q64 as int);
            assert(up_chain(m, 4) == 0x1_0065_a78b_f36d_76adint);
            assert(up_chain(n, 4) == Q64 as int);
            assert(up_chain(m, 5) == 0x1_00ce_c0e7_3bed_a15cint);
            assert(up_chain(n, 5) == Q64 as int);
            assert(up_chain(m, 6) == 0x1_01a1_74ed_91c3_16aaint);
            assert(up_chain(n, 6) == Q64 as int);
            assert(up_chain(m, 7) == 0x1_0348_e428_c341_6ac9int);
            assert(up_chain(n, 7) == Q64 as int);
            assert(up_chain(m, 8) == 0x1_069f_eeec_b133_5058int);
            assert(up_chain(n, 8) == Q64 as int);
            assert(up_chain(m, 9) == 0x1_0d6f_33c8_21e3_0dfeint);
            assert(up_chain(n, 9) == Q64 as int);
            assert(up_chain(m, 10) == 0x1_1b96_8451_840e_de08int);
            assert(up_chain(n, 10) == Q64 as int);
            assert(up_chain(m, 11) == 0x1_3a2a_266c_32f0_92b0int);
            assert(up_chain(n, 11) == Q64 as int);
            assert(up_chain(m, 12) == 0x1_8190_5c84_405e_6589int);
            assert(up_chain(n, 12) == Q64 as int);
            assert(up_chain(m, 13) == 0x2_44ba_f679_5ea0_f745int);
            assert(up_chain(n, 13) == Q64 as int);
            assert(up_chain(m, 14) == 0x5_2570_920a_b4c5_8946int);
            assert(up_chain(n, 14) == Q64 as int);
            assert(up_chain(m, 15) == 0x5_2570_920a_b4c5_8946int);
            assert(up_chain(n, 15) == 0x5_2581_6eeb_9f93_5b1cint);
            assert forall|j: int| 15 < j <= 18 implies (m & #[trigger] ladder_bit(j)) == (n
                & ladder_bit(j)) by {}
            lemma_chain_gap_up(m, n, 15, 0x10_dce0_eacd_d1d6int);
    } else if m & 0x1_0000 == 0 {
            assert(n & 0x1 == 0 && n & 0x2 == 0 && n & 0x4 == 0 && n & 0x8 == 0 && n & 0x10 == 0 && n & 0x20 == 0 && n & 0x40 == 0 && n & 0x80 == 0 && n & 0x100 == 0 && n & 0x200 == 0 && n & 0x400 == 0 && n & 0x800 == 0 && n & 0x1000 == 0 && n & 0x2000 == 0 && n & 0x4000 == 0 && n & 0x8000 == 0 && n & 0x1_0000 != 0 && n & 0x2_0000 == m & 0x2_0000 && n & 0x4_0000 == m & 0x4_0000) by (bit_vector)
                requires
                    m & 0x1 != 0u32,
                    m & 0x2 != 0u32,
                    m & 0x4 != 0u32,
                    m & 0x8 != 0u32,
                    m & 0x10 != 0u32,
                    m & 0x20 != 0u32,
                    m & 0x40 != 0u32,
                    m & 0x80 != 0u32,
                    m & 0x100 != 0u32,
                    m & 0x200 != 0u32,
                    m & 0x400 != 0u32,
                    m & 0x800 != 0u32,
                    m & 0x1000 != 0u32,
                    m & 0x2000 != 0u32,
                    m & 0x4000 != 0u32,
                    m & 0x8000 != 0u32,
                    m & 0x1_0000 == 0u32,
                    m <= 443635u32,
                    n == m + 1,
            ;
            assert(up_chain(m, 0) == 0x1_0003_46d6_ff11_672aint);
            assert(up_chain(n, 0) == Q64 as int);
            assert(up_chain(m, 1) == 0x1_0009_d4a5_3344_2b65int);
            assert(up_chain(n, 1) == Q64 as int);
            assert(up_chain(m, 2) == 0x1_0016_f0c2_77c2_b1e2int);
            assert(up_chain(n, 2) == Q64 as int);
            assert(up_chain(m, 3) == 0x1_0031_2b00_8fee_64b3int);
            assert(up_chain(n, 3) == Q64 as int);
            assert(up_chain(m, 4) == 0x1_0065_a78b_f36d_76adint);
            assert(up_chain(n, 4) == Q64 as int);
            assert(up_chain(m, 5) == 0x1_00ce_c0e7_3bed_a15cint);
            assert(up_chain(n, 5) == Q64 as int);
            assert(up_chain(m, 6) == 0x1_01a1_74ed_91c3_16aaint);
            assert(up_chain(n, 6) == Q64 as int);
            assert(up_chain(m, 7) == 0x1_0348_e428_c341_6ac9int);
            assert(up_chain(n, 7) == Q64 as int);
            assert(up_chain(m, 8) == 0x1_069f_eeec_b133_5058int);
            assert(up_chain(n, 8) == Q64 as int);
            assert(up_chain(m, 9) == 0x1_0d6f_33c8_21e3_0dfeint);
            assert(up_chain(n, 9) == Q64 as int);
            assert(up_chain(m, 10) == 0x1_1b96_8451_840e_de08int);
            assert(up_chain(n, 10) == Q64 as int);
            assert(up_chain(m, 11) == 0x1_3a2a_266c_32f0_92b0int);
            assert(up_chain(n, 11) == Q64 as int);
            assert(up_chain(m, 12) == 0x1_8190_5c84_405e_6589int);
            assert(up_chain(n, 12) == Q64 as int);
            assert(up_chain(m, 13) == 0x2_44ba_f679_5ea0_f745int);
            assert(up_chain(n, 13) == Q64 as int);
            assert(up_chain(m, 14) == 0x5_2570_920a_b4c5_8946int);
            assert(up_chain(n, 14) == Q64 as int);
            assert(up_chain(m, 15) == 0x1a_7c36_37dd_9daf_3b77int);
            assert(up_chain(n, 15) == Q64 as int);
            assert(up_chain(m, 16) == 0x1a_7c36_37dd_9daf_3b77int);
            assert(up_chain(n, 16) == 0x1a_7c8d_00b5_5168_4ff4int);
            assert forall|j: int| 16 < j <= 18 implies (m & #[trigger] ladder_bit(j)) == (n
                & ladder_bit(j)) by {}
            lemma_chain_gap_up(m, n, 16, 0x56_c8d7_b3b9_147dint);
    } else if m & 0x2_0000 == 0 {
            assert(n & 0x1 == 0 && n & 0x2 == 0 && n & 0x4 == 0 && n & 0x8 == 0 && n & 0x10 == 0 && n & 0x20 == 0 && n & 0x40 == 0 && n & 0x80 == 0 && n & 0x100 == 0 && n & 0x200 == 0 && n & 0x400 == 0 && n & 0x800 == 0 && n & 0x1000 == 0 && n & 0x2000 == 0 && n & 0x4000 == 0 && n & 0x8000 == 0 && n & 0x1_0000 == 0 && n & 0x2_0000 != 0 && n & 0x4_0000 == m & 0x4_0000) by (bit_vector)
                requires
                    m & 0x1 != 0u32,
                    m & 0x2 != 0u32,
                    m & 0x4 != 0u32,
                    m & 0x8 != 0u32,
                    m & 0x10 != 0u32,
                    m & 0x20 != 0u32,
                    m & 0x40 != 0u32,
                    m & 0x80 != 0u32,
                    m & 0x100 != 0u32,
                    m & 0x200 != 0u32,
                    m & 0x400 != 0u32,
                    m & 0x800 != 0u32,
                    m & 0x1000 != 0u32,
                    m & 0x2000 != 0u32,
                    m & 0x4000 != 0u32,
                    m & 0x8000 != 0u32,
                    m & 0x1_0000 != 0u32,
                    m & 0x2_0000 == 0u32,
                    m <= 443635u32,
                    n == m + 1,
            ;
            assert(up_chain(m, 0) == 0x1_0003_46d6_ff11_672aint);
            assert(up_chain(n, 0) == Q64 as int);
            assert(up_chain(m, 1) == 0x1_0009_d4a5_3344_2b65int);
            assert(up_chain(n, 1) == Q64 as int);
            assert(up_chain(m, 2) == 0x1_0016_f0c2_77c2_b1e2int);
            assert(up_chain(n, 2) == Q64 as int);
            assert(up_chain(m, 3) == 0x1_0031_2b00_8fee_64b3int);
            assert(up_chain(n, 3) == Q64 as int);
            assert(up_chain(m, 4) == 0x1_0065_a78b_f36d_76adint);
            assert(up_chain(n, 4) == Q64 as int);
            assert(up_chain(m, 5) == 0x1_00ce_c0e7_3bed_a15cint);
            assert(up_chain(n, 5) == Q64 as int);
            assert(up_chain(m, 6) == 0x1_01a1_74ed_91c3_16aaint);
            assert(up_chain(n, 6) == Q64 as int);
            assert(up_chain(m, 7) == 0x1_0348_e428_c341_6ac9int);
            assert(up_chain(n, 7) == Q64 as int);
            assert(up_chain(m, 8) == 0x1_069f_eeec_b133_5058int);
            assert(up_chain(n, 8) == Q64 as int);
            assert(up_chain(m, 9) == 0x1_0d6f_33c8_21e3_0dfeint);
            assert(up_chain(n, 9) == Q64 as int);
            assert(up_chain(m, 10) == 0x1_1b96_8451_840e_de08int);
            assert(up_chain(n, 10) == Q64 as int);
            assert(up_chain(m, 11) == 0x1_3a2a_266c_32f0_92b0int);
            assert(up_chain(n, 11) == Q64 as int);
            assert(up_chain(m, 12) == 0x1_8190_5c84_405e_6589int);
            assert(up_chain(n, 12) == Q64 as int);
            assert(up_chain(m, 13) == 0x2_44ba_f679_5ea0_f745int);
            assert(up_chain(n, 13) == Q64 as int);
            assert(up_chain(m, 14) == 0x5_2570_920a_b4c5_8946int);
            assert(up_chain(n, 14) == Q64 as int);
            assert(up_chain(m, 15) == 0x1a_7c36_37dd_9daf_3b77int);
            assert(up_chain(n, 15) == Q64 as int);
            assert(up_chain(m, 16) == 0x2bd_8042_6c30_5faa_275eint);
            assert(up_chain(n, 16) == Q64 as int);
            assert(up_chain(m, 17) == 0x2bd_8042_6c30_5faa_275eint);
            assert(up_chain(n, 17) == 0x2bd_893d_0b2d_f7c9_7884int);
            assert forall|j: int| 17 < j <= 18 implies (m & #[trigger] ladder_bit(j)) == (n
                & ladder_bit(j)) by {}
            lemma_chain_gap_up(m, n, 17, 0x8fa_9efd_981f_5126int);
    } else {
        assert(m & 0x4_0000 == 0) by (bit_vector)
            requires
                m & 0x1 != 0u32,
                m & 0x2 != 0u32,
                m & 0x4 != 0u32,
                m & 0x8 != 0u32,
                m & 0x10 != 0u32,
                m & 0x20 != 0u32,
                m & 0x40 != 0u32,
                m & 0x80 != 0u32,
                m & 0x100 != 0u32,
                m & 0x200 != 0u32,
                m & 0x400 != 0u32,
                m & 0x800 != 0u32,
                m & 0x1000 != 0u32,
                m & 0x2000 != 0u32,
                m & 0x4000 != 0u32,
                m & 0x8000 != 0u32,
                m & 0x1_0000 != 0u32,
                m & 0x2_0000 != 0u32,
                m <= 443635u32,
        ;
            assert(n & 0x1 == 0 && n & 0x2 == 0 && n & 0x4 == 0 && n & 0x8 == 0 && n & 0x10 == 0 && n & 0x20 == 0 && n & 0x40 == 0 && n & 0x80 == 0 && n & 0x100 == 0 && n & 0x200 == 0 && n & 0x400 == 0 && n & 0x800 == 0 && n & 0x1000 == 0 && n & 0x2000 == 0 && n & 0x4000 == 0 && n & 0x8000 == 0 && n & 0x1_0000 == 0 && n & 0x2_0000 == 0 && n & 0x4_0000 != 0) by (bit_vector)
                requires
                    m & 0x1 != 0u32,
                    m & 0x2 != 0u32,
                    m & 0x4 != 0u32,
                    m & 0x8 != 0u32,
                    m & 0x10 != 0u32,
                    m & 0x20 != 0u32,
                    m & 0x40 != 0u32,
                    m & 0x80 != 0u32,
                    m & 0x100 != 0u32,
                    m & 0x200 != 0u32,
                    m & 0x400 != 0u32,
                    m & 0x800 != 0u32,
                    m & 0x1000 != 0u32,
                    m & 0x2000 != 0u32,
                    m & 0x4000 != 0u32,
                    m & 0x8000 != 0u32,
                    m & 0x1_0000 != 0u32,
                    m & 0x2_0000 != 0u32,
                    m & 0x4_0000 == 0u32,
                    m <= 443635u32,
                    n == m + 1,
            ;
            assert(up_chain(m, 0) == 0x1_0003_46d6_ff11_672aint);
            assert(up_chain(n, 0) == Q64 as int);
            assert(up_chain(m, 1) == 0x1_0009_d4a5_3344_2b65int);
            assert(up_chain(n, 1) == Q64 as int);
            assert(up_chain(m, 2) == 0x1_0016_f0c2_77c2_b1e2int);
            assert(up_chain(n, 2) == Q64 as int);
            assert(up_chain(m, 3) == 0x1_0031_2b00_8fee_64b3int);
            assert(up_chain(n, 3) == Q64 as int);
            assert(up_chain(m, 4) == 0x1_0065_a78b_f36d_76adint);
            assert(up_chain(n, 4) == Q64 as int);
            assert(up_chain(m, 5) == 0x1_00ce_c0e7_3bed_a15cint);
            assert(up_chain(n, 5) == Q64 as int);
            assert(up_chain(m, 6) == 0x1_01a1_74ed_91c3_16aaint);
            assert(up_chain(n, 6) == Q64 as int);
            assert(up_chain(m, 7) == 0x1_0348_e428_c341_6ac9int);
            assert(up_chain(n, 7) == Q64 as int);
            assert(up_chain(m, 8) == 0x1_069f_eeec_b133_5058int);
            assert(up_chain(n, 8) == Q64 as int);
            assert(up_chain(m, 9) == 0x1_0d6f_33c8_21e3_0dfeint);
            assert(up_chain(n, 9) == Q64 as int);
            assert(up_chain(m, 10) == 0x1_1b96_8451_840e_de08int);
            assert(up_chain(n, 10) == Q64 as int);
            assert(up_chain(m, 11) == 0x1_3a2a_266c_32f0_92b0int);
            assert(up_chain(n, 11) == Q64 as int);
            assert(up_chain(m, 12) == 0x1_8190_5c84_405e_6589int);
            assert(up_chain(n, 12) == Q64 as int);
            assert(up_chain(m, 13) == 0x2_44ba_f679_5ea0_f745int);
            assert(up_chain(n, 13) == Q64 as int);
            assert(up_chain(m, 14) == 0x5_2570_920a_b4c5_8946int);
            assert(up_chain(n, 14) == Q64 as int);
            assert(up_chain(m, 15) == 0x1a_7c36_37dd_9daf_3b77int);
            assert(up_chain(n, 15) == Q64 as int);
            assert(up_chain(m, 16) == 0x2bd_8042_6c30_5faa_275eint);
            assert(up_chain(n, 16) == Q64 as int);
            assert(up_chain(m, 17) == 0x7_8260_46cb_fea9_04cd_c7feint);
            assert(up_chain(n, 17) == Q64 as int);
            assert(up_chain(m, 18) == 0x7_8260_46cb_fea9_04cd_c7feint);
            assert(up_chain(n, 18) == 0x7_8278_e1e1_9e44_8cf8_b95dint);
            assert forall|j: int| 18 < j <= 18 implies (m & #[trigger] ladder_bit(j)) == (n
                & ladder_bit(j)) by {}
            lemma_chain_gap_up(m, n, 18, 0x18_9b15_9f9b_882a_f15fint);
    }
}

/// Moving one tick down divides the ideal price by `sqrt(1.0001)`;
/// the truncated downward ladder keeps a strict decrease at every
/// magnitude.
#[verifier::rlimit(100)]
proof fn lemma_down_adjacent(m: u32, p: u32)
    requires
        1 <= m <= 443636,
        p == m - 1,
    ensures
        down_chain(m, 18) < down_chain(p, 18),
{
    if m & 0x1 != 0 {
            assert(p & 0x1 == 0 && p & 0x2 == m & 0x2 && p & 0x4 == m & 0x4 && p & 0x8 == m & 0x8 && p & 0x10 == m & 0x10 && p & 0x20 == m & 0x20 && p & 0x40 == m & 0x40 && p & 0x80 == m & 0x80 && p & 0x100 == m & 0x100 && p & 0x200 == m & 0x200 && p & 0x400 == m & 0x400 && p & 0x800 == m & 0x800 && p & 0x1000 == m & 0x1000 && p & 0x2000 == m & 0x2000 && p & 0x4000 == m & 0x4000 && p & 0x8000 == m & 0x8000 && p & 0x1_0000 == m & 0x1_0000 && p & 0x2_0000 == m & 0x2_0000 && p & 0x4_0000 == m & 0x4_0000) by (bit_vector)
                requires
                    m & 0x1 != 0u32,
                    m >= 1u32,
                    p == m - 1,
            ;
            assert(down_chain(m, 0) == 0xfffc_b933_bd6f_ad37int);
            assert(down_chain(p, 0) == Q64 as int);
            assert forall|j: int| 0 < j <= 18 implies (m & #[trigger] ladder_bit(j)) == (p
                & ladder_bit(j)) by {}
            lemma_chain_gap_down(m, p, 0, 0x3_46cc_4290_52c9int);
            assert(down_gap_floor(0xee0int, 18) == 0xee0int);
            assert(down_gap_floor(0x6fb5_026fint, 17) == down_gap_floor(0xee0int, 18));
            assert(down_gap_floor(0x132_1e8a_2dacint, 16) == down_gap_floor(0x6fb5_026fint, 17));
            assert(down_gap_floor(0x1fac_096f_3c96int, 15) == down_gap_floor(0x132_1e8a_2dacint, 16));
            assert(down_gap_floor(0xa300_0ff3_1677int, 14) == down_gap_floor(0x1fac_096f_3c96int, 15));
            assert(down_gap_floor(0x1_71c7_eab9_21f0int, 13) == down_gap_floor(0xa300_0ff3_1677int, 14));
            assert(down_gap_floor(0x2_2cf5_4efe_b97aint, 12) == down_gap_floor(0x1_71c7_eab9_21f0int, 13));
            assert(down_gap_floor(0x2_ab89_5660_2940int, 11) == down_gap_floor(0x2_2cf5_4efe_b97aint, 12));
            assert(down_gap_floor(0x2_f53c_6761_4cfaint, 10) == down_gap_floor(0x2_ab89_5660_2940int, 11));
            assert(down_gap_floor(0x3_1d03_9a72_cec8int, 9) == down_gap_floor(0x2_f53c_6761_4cfaint, 10));
            assert(down_gap_floor(0x3_31ae_1454_ef6aint, 8) == down_gap_floor(0x3_1d03_9a72_cec8int, 9));
            assert(down_gap_floor(0x3_3c36_89f8_3d85int, 7) == down_gap_floor(0x3_31ae_1454_ef6aint, 8));
            assert(down_gap_floor(0x3_4187_c433_c4a3int, 6) == down_gap_floor(0x3_3c36_89f8_3d85int, 7));
            assert(down_gap_floor(0x3_4433_a766_a6a5int, 5) == down_gap_floor(0x3_4187_c433_c4a3int, 6));
            assert(down_gap_floor(0x3_458a_6b4d_e6dcint, 4) == down_gap_floor(0x3_4433_a766_a6a5int, 5));
            assert(down_gap_floor(0x3_4636_01ee_1efeint, 3) == down_gap_floor(0x3_458a_6b4d_e6dcint, 4));
            assert(down_gap_floor(0x3_468b_da6c_86cdint, 2) == down_gap_floor(0x3_4636_01ee_1efeint, 3));
            assert(down_gap_floor(0x3_46b6_c9f7_b26fint, 1) == down_gap_floor(0x3_468b_da6c_86cdint, 2));
            assert(down_gap_floor(0x3_46cc_4290_52c9int, 0) == down_gap_floor(0x3_46b6_c9f7_b26fint, 1));
            assert(down_gap_floor(0x3_46cc_4290_52c9int, 0) >= 1);
    } else if m & 0x2 != 0 {
            assert(p & 0x1 != 0 && p & 0x2 == 0 && p & 0x4 == m & 0x4 && p & 0x8 == m & 0x8 && p & 0x10 == m & 0x10 && p & 0x20 == m & 0x20 && p & 0x40 == m & 0x40 && p & 0x80 == m & 0x80 && p & 0x100 == m & 0x100 && p & 0x200 == m & 0x200 && p & 0x400 == m & 0x400 && p & 0x800 == m & 0x800 && p & 0x1000 == m & 0x1000 && p & 0x2000 == m & 0x2000 && p & 0x4000 == m & 0x4000 && p & 0x8000 == m & 0x8000 && p & 0x1_0000 == m & 0x1_0000 && p & 0x2_0000 == m & 0x2_0000 && p & 0x4_0000 == m & 0x4_0000) by (bit_vector)
                requires
                    m & 0x1 == 0u32,
                    m & 0x2 != 0u32,
                    m >= 1u32,
                    p == m - 1,
            ;
            assert(down_chain(m, 0) == Q64 as int);
            assert(down_chain(p, 0) == 0xfffc_b933_bd6f_ad37int);
            assert(down_chain(m, 1) == 0xfff9_7272_373d_4132int);
            assert(down_chain(p, 1) == 0xfffc_b933_bd6f_ad37int);
            assert forall|j: int| 1 < j <= 18 implies (m & #[trigger] ladder_bit(j)) == (p
                & ladder_bit(j)) by {}
            lemma_chain_gap_down(m, p, 1, 0x3_46c1_8632_6c05int);
            assert(down_gap_floor(0xee0int, 18) == 0xee0int);
            assert(down_gap_floor(0x6fb6_7078int, 17) == down_gap_floor(0xee0int, 18));
            assert(down_gap_floor(0x132_2275_3ebbint, 16) == down_gap_floor(0x6fb6_7078int, 17));
            assert(down_gap_floor(0x1fac_7136_fcd6int, 15) == down_gap_floor(0x132_2275_3ebbint, 16));
            assert(down_gap_floor(0xa302_260e_2f23int, 14) == down_gap_floor(0x1fac_7136_fcd6int, 15));
            assert(down_gap_floor(0x1_71cc_a664_19d8int, 13) == down_gap_floor(0xa302_260e_2f23int, 14));
            assert(down_gap_floor(0x2_2cfc_6ffd_7a0eint, 12) == down_gap_floor(0x1_71cc_a664_19d8int, 13));
            assert(down_gap_floor(0x2_ab92_1621_c7d9int, 11) == down_gap_floor(0x2_2cfc_6ffd_7a0eint, 12));
            assert(down_gap_floor(0x2_f546_18a0_fa5cint, 10) == down_gap_floor(0x2_ab92_1621_c7d9int, 11));
            assert(down_gap_floor(0x3_1d0d_ce09_f57cint, 9) == down_gap_floor(0x2_f546_18a0_fa5cint, 10));
            assert(down_gap_floor(0x3_31b8_8ba3_7c31int, 8) == down_gap_floor(0x3_1d0d_ce09_f57cint, 9));
            assert(down_gap_floor(0x3_3c41_23ca_53f2int, 7) == down_gap_floor(0x3_31b8_8ba3_7c31int, 8));
            assert(down_gap_floor(0x3_4192_6f72_36e2int, 6) == down_gap_floor(0x3_3c41_23ca_53f2int, 7));
            assert(down_gap_floor(0x3_443e_5b66_00f6int, 5) == down_gap_floor(0x3_4192_6f72_36e2int, 6));
            assert(down_gap_floor(0x3_4595_23b0_6651int, 4) == down_gap_floor(0x3_443e_5b66_00f6int, 5));
            assert(down_gap_floor(0x3_4640_bc82_dd9eint, 3) == down_gap_floor(0x3_4595_23b0_6651int, 4));
            assert(down_gap_floor(0x3_4696_961a_9033int, 2) == down_gap_floor(0x3_4640_bc82_dd9eint, 3));
            assert(down_gap_floor(0x3_46c1_8632_6c05int, 1) == down_gap_floor(0x3_4696_961a_9033int, 2));
            assert(down_gap_floor(0x3_46c1_8632_6c05int, 1) >= 1);
    } else if m & 0x4 != 0 {
            assert(p & 0x1 != 0 && p & 0x2 != 0 && p & 0x4 == 0 && p & 0x8 == m & 0x8 && p & 0x10 == m & 0x10 && p & 0x20 == m & 0x20 && p & 0x40 == m & 0x40 && p & 0x80 == m & 0x80 && p & 0x100 == m & 0x100 && p & 0x200 == m & 0x200 && p & 0x400 == m & 0x400 && p & 0x800 == m & 0x800 && p & 0x1000 == m & 0x1000 && p & 0x2000 == m & 0x2000 && p & 0x4000 == m & 0x4000 && p & 0x8000 == m & 0x8000 && p & 0x1_0000 == m & 0x1_0000 && p & 0x2_0000 == m & 0x2_0000 && p & 0x4_0000 == m & 0x4_0000) by (bit_vector)
                requires
                    m & 0x1 == 0u32,
                    m & 0x2 == 0u32,
                    m & 0x4 != 0u32,
                    m >= 1u32,
                    p == m - 1,
            ;
            assert(down_chain(m, 0) == Q64 as int);
            assert(down_chain(p, 0) == 0xfffc_b933_bd6f_ad37int);
            assert(down_chain(m, 1) == Q64 as int);
            assert(down_chain(p, 1) == 0xfff6_2bbb_6d45_8ec2int);
            assert(down_chain(m, 2) == 0xfff2_e50f_5f65_6932int);
            assert(down_chain(p, 2) == 0xfff6_2bbb_6d45_8ec2int);
            assert forall|j: int| 2 < j <= 18 implies (m & #[trigger] ladder_bit(j)) == (p
                & ladder_bit(j)) by {}
            lemma_chain_gap_down(m, p, 2, 0x3_46ac_0de0_2590int);
            assert(down_gap_floor(0xee0int, 18) == 0xee0int);
            assert(down_gap_floor(0x6fb9_4c96int, 17) == down_gap_floor(0xee0int, 18));
            assert(down_gap_floor(0x132_2a4b_875dint, 16) == down_gap_floor(0x6fb9_4c96int, 17));
            assert(down_gap_floor(0x1fad_40ca_7989int, 15) == down_gap_floor(0x132_2a4b_875dint, 16));
            assert(down_gap_floor(0xa306_5258_e2e7int, 14) == down_gap_floor(0x1fad_40ca_7989int, 15));
            assert(down_gap_floor(0x1_71d6_1de8_90bbint, 13) == down_gap_floor(0xa306_5258_e2e7int, 14));
            assert(down_gap_floor(0x2_2d0a_b241_0f7eint, 12) == down_gap_floor(0x1_71d6_1de8_90bbint, 13));
            assert(down_gap_floor(0x2_aba3_95fb_068fint, 11) == down_gap_floor(0x2_2d0a_b241_0f7eint, 12));
            assert(down_gap_floor(0x2_f559_7b7f_9c95int, 10) == down_gap_floor(0x2_aba3_95fb_068fint, 11));
            assert(down_gap_floor(0x3_1d22_359c_8ba6int, 9) == down_gap_floor(0x2_f559_7b7f_9c95int, 10));
            assert(down_gap_floor(0x3_31cd_7aa7_782fint, 8) == down_gap_floor(0x3_1d22_359c_8ba6int, 9));
            assert(down_gap_floor(0x3_3c56_57d6_b683int, 7) == down_gap_floor(0x3_31cd_7aa7_782fint, 8));
            assert(down_gap_floor(0x3_41a7_c657_fc5dint, 6) == down_gap_floor(0x3_3c56_57d6_b683int, 7));
            assert(down_gap_floor(0x3_4453_c3cd_eca1int, 5) == down_gap_floor(0x3_41a7_c657_fc5dint, 6));
            assert(down_gap_floor(0x3_45aa_94de_c766int, 4) == down_gap_floor(0x3_4453_c3cd_eca1int, 5));
            assert(down_gap_floor(0x3_4656_3215_d2a1int, 3) == down_gap_floor(0x3_45aa_94de_c766int, 4));
            assert(down_gap_floor(0x3_46ac_0de0_2590int, 2) == down_gap_floor(0x3_4656_3215_d2a1int, 3));
            assert(down_gap_floor(0x3_46ac_0de0_2590int, 2) >= 1);
    } else if m & 0x8 != 0 {
            assert(p & 0x1 != 0 && p & 0x2 != 0 && p & 0x4 != 0 && p & 0x8 == 0 && p & 0x10 == m & 0x10 && p & 0x20 == m & 0x20 && p & 0x40 == m & 0x40 && p & 0x80 == m & 0x80 && p & 0x100 == m & 0x100 && p & 0x200 == m & 0x200 && p & 0x400 == m & 0x400 && p & 0x800 == m & 0x800 && p & 0x1000 == m & 0x1000 && p & 0x2000 == m & 0x2000 && p & 0x4000 == m & 0x4000 && p & 0x8000 == m & 0x8000 && p & 0x1_0000 == m & 0x1_0000 && p & 0x2_0000 == m & 0x2_0000 && p & 0x4_0000 == m & 0x4_0000) by (bit_vector)
                requires
                    m & 0x1 == 0u32,
                    m & 0x2 == 0u32,
                    m & 0x4 == 0u32,
                    m & 0x8 != 0u32,
                    m >= 1u32,
                    p == m - 1,
            ;
            assert(down_chain(m, 0) == Q64 as int);
            assert(down_chain(p, 0) == 0xfffc_b933_bd6f_ad37int);
            assert(down_chain(m, 1) == Q64 as int);
            assert(down_chain(p, 1) == 0xfff6_2bbb_6d45_8ec2int);
            assert(down_chain(m, 2) == Q64 as int);
            assert(down_chain(p, 2) == 0xffe9_114b_9cf2_8d36int);
            assert(down_chain(m, 3) == 0xffe5_caca_7e10_e4e6int);
            assert(down_chain(p, 3) == 0xffe9_114b_9cf2_8d36int);
            assert forall|j: int| 3 < j <= 18 implies (m & #[trigger] ladder_bit(j)) == (p
                & ladder_bit(j)) by {}
            lemma_chain_gap_down(m, p, 3, 0x3_4681_1ee1_a850int);
            assert(down_gap_floor(0xee1int, 18) == 0xee1int);
            assert(down_gap_floor(0x6fbf_050cint, 17) == down_gap_floor(0xee1int, 18));
            assert(down_gap_floor(0x132_39f8_b2b8int, 16) == down_gap_floor(0x6fbf_050cint, 17));
            assert(down_gap_floor(0x1fae_e001_642dint, 15) == down_gap_floor(0x132_39f8_b2b8int, 16));
            assert(down_gap_floor(0xa30e_ab40_569cint, 14) == down_gap_floor(0x1fae_e001_642dint, 15));
            assert(down_gap_floor(0x1_71e9_0dab_a064int, 13) == down_gap_floor(0xa30e_ab40_569cint, 14));
            assert(down_gap_floor(0x2_2d27_37e0_93e0int, 12) == down_gap_floor(0x1_71e9_0dab_a064int, 13));
            assert(down_gap_floor(0x2_abc6_9705_9455int, 11) == down_gap_floor(0x2_2d27_37e0_93e0int, 12));
            assert(down_gap_floor(0x2_f580_42ba_0a47int, 10) == down_gap_floor(0x2_abc6_9705_9455int, 11));
            assert(down_gap_floor(0x3_1d4b_0652_e707int, 9) == down_gap_floor(0x2_f580_42ba_0a47int, 10));
            assert(down_gap_floor(0x3_31f7_5a4b_0637int, 8) == down_gap_floor(0x3_1d4b_0652_e707int, 9));
            assert(down_gap_floor(0x3_3c80_c190_5efaint, 7) == down_gap_floor(0x3_31f7_5a4b_0637int, 8));
            assert(down_gap_floor(0x3_41d2_75c7_17d8int, 6) == down_gap_floor(0x3_3c80_c190_5efaint, 7));
            assert(down_gap_floor(0x3_447e_9642_acbbint, 5) == down_gap_floor(0x3_41d2_75c7_17d8int, 6));
            assert(down_gap_floor(0x3_45d5_78e1_1edbint, 4) == down_gap_floor(0x3_447e_9642_acbbint, 5));
            assert(down_gap_floor(0x3_4681_1ee1_a850int, 3) == down_gap_floor(0x3_45d5_78e1_1edbint, 4));
            assert(down_gap_floor(0x3_4681_1ee1_a850int, 3) >= 1);
    } else if m & 0x10 != 0 {
            assert(p & 0x1 != 0 && p & 0x2 != 0 && p & 0x4 != 0 && p & 0x8 != 0 && p & 0x10 == 0 && p & 0x20 == m & 0x20 && p & 0x40 == m & 0x40 && p & 0x80 == m & 0x80 && p & 0x100 == m & 0x100 && p & 0x200 == m & 0x200 && p & 0x400 == m & 0x400 && p & 0x800 == m & 0x800 && p & 0x1000 == m & 0x1000 && p & 0x2000 == m & 0x2000 && p & 0x4000 == m & 0x4000 && p & 0x8000 == m & 0x8000 && p & 0x1_0000 == m & 0x1_0000 && p & 0x2_0000 == m & 0x2_0000 && p & 0x4_0000 == m & 0x4_0000) by (bit_vector)
                requires
                    m & 0x1 == 0u32,
                    m & 0x2 == 0u32,
                    m & 0x4 == 0u32,
                    m & 0x8 == 0u32,
                    m & 0x10 != 0u32,
                    m >= 1u32,
                    p == m - 1,
            ;
            assert(down_chain(m, 0) == Q64 as int);
            assert(down_chain(p, 0) == 0xfffc_b933_bd6f_ad37int);
            assert(down_chain(m, 1) == Q64 as int);
            assert(down_chain(p, 1) == 0xfff6_2bbb_6d45_8ec2int);
            assert(down_chain(m, 2) == Q64 as int);
            assert(down_chain(p, 2) == 0xffe9_114b_9cf2_8d36int);
            assert(down_chain(m, 3) == Q64 as int);
            assert(down_chain(p, 3) == 0xffce_de6f_1d8b_e908int);
            assert(down_chain(m, 4) == 0xffcb_9843_d60f_6159int);
            assert(down_chain(p, 4) == 0xffce_de6f_1d8b_e908int);
            assert forall|j: int| 4 < j <= 18 implies (m & #[trigger] ladder_bit(j)) == (p
                & ladder_bit(j)) by {}
            lemma_chain_gap_down(m, p, 4, 0x3_462b_477c_87afint);
            assert(down_gap_floor(0xee2int, 18) == 0xee2int);
            assert(down_gap_floor(0x6fca_76d8int, 17) == down_gap_floor(0xee2int, 18));
            assert(down_gap_floor(0x132_5955_71ecint, 16) == down_gap_floor(0x6fca_76d8int, 17));
            assert(down_gap_floor(0x1fb2_1eaf_0245int, 15) == down_gap_floor(0x132_5955_71ecint, 16));
            assert(down_gap_floor(0xa31f_5e57_8251int, 14) == down_gap_floor(0x1fb2_1eaf_0245int, 15));
            assert(down_gap_floor(0x1_720e_f01a_73b4int, 13) == down_gap_floor(0xa31f_5e57_8251int, 14));
            assert(down_gap_floor(0x2_2d60_4781_45a4int, 12) == down_gap_floor(0x1_720e_f01a_73b4int, 13));
            assert(down_gap_floor(0x2_ac0c_9e7b_4378int, 11) == down_gap_floor(0x2_2d60_4781_45a4int, 12));
            assert(down_gap_floor(0x2_f5cd_d723_e5b5int, 10) == down_gap_floor(0x2_ac0c_9e7b_4378int, 11));
            assert(down_gap_floor(0x3_1d9c_ae04_b9ceint, 9) == down_gap_floor(0x2_f5cd_d723_e5b5int, 10));
            assert(down_gap_floor(0x3_324b_2000_dcd0int, 8) == down_gap_floor(0x3_1d9c_ae04_b9ceint, 9));
            assert(down_gap_floor(0x3_3cd5_9b87_a0dbint, 7) == down_gap_floor(0x3_324b_2000_dcd0int, 8));
            assert(down_gap_floor(0x3_4227_db33_f523int, 6) == down_gap_floor(0x3_3cd5_9b87_a0dbint, 7));
            assert(down_gap_floor(0x3_44d4_41c0_348cint, 5) == down_gap_floor(0x3_4227_db33_f523int, 6));
            assert(down_gap_floor(0x3_462b_477c_87afint, 4) == down_gap_floor(0x3_44d4_41c0_348cint, 5));
            assert(down_gap_floor(0x3_462b_477c_87afint, 4) >= 1);
    } else {
        lemma_down_adjacent_mid(m, p);
    }
}

/// A band of carry cases of the downward adjacent-tick law.
#[verifier::rlimit(100)]
proof fn lemma_down_adjacent_mid(m: u32, p: u32)
    requires
        1 <= m <= 443636,
        p == m - 1,
        m & 0x1 == 0,
        m & 0x2 == 0,
        m & 0x4 == 0,
        m & 0x8 == 0,
        m & 0x10 == 0,
    ensures
        down_chain(m, 18) < down_chain(p, 18),
{
    if m & 0x20 != 0 {
            assert(p & 0x1 != 0 && p & 0x2 != 0 && p & 0x4 != 0 && p & 0x8 != 0 && p & 0x10 != 0 && p & 0x20 == 0 && p & 0x40 == m & 0x40 && p & 0x80 == m & 0x80 && p & 0x100 == m & 0x100 && p & 0x200 == m & 0x200 && p & 0x400 == m & 0x400 && p & 0x800 == m & 0x800 && p & 0x1000 == m & 0x1000 && p & 0x2000 == m & 0x2000 && p & 0x4000 == m & 0x4000 && p & 0x8000 == m & 0x8000 && p & 0x1_0000 == m & 0x1_0000 && p & 0x2_0000 == m & 0x2_0000 && p & 0x4_0000 == m & 0x4_0000) by (bit_vector)
                requires
                    m & 0x1 == 0u32,
                    m & 0x2 == 0u32,
                    m & 0x4 == 0u32,
                    m & 0x8 == 0u32,
                    m & 0x10 == 0u32,
                    m & 0x20 != 0u32,
                    m >= 1u32,
                    p == m - 1,
            ;
            assert(down_chain(m, 0) == Q64 as int);
            assert(down_chain(p, 0) == 0xfffc_b933_bd6f_ad37int);
            assert(down_chain(m, 1) == Q64 as int);
            assert(down_chain(p, 1) == 0xfff6_2bbb_6d45_8ec2int);
            assert(down_chain(m, 2) == Q64 as int);
            assert(down_chain(p, 2) == 0xffe9_114b_9cf2_8d36int);
            assert(down_chain(m, 3) == Q64 as int);
            assert(down_chain(p, 3) == 0xffce_de6f_1d8b_e908int);
            assert(down_chain(m, 4) == Q64 as int);
            assert(down_chain(p, 4) == 0xff9a_80c1_ada7_4806int);
            assert(down_chain(m, 5) == 0xff97_3b41_fa98_c081int);
            assert(down_chain(p, 5) == 0xff9a_80c1_ada7_4806int);
            assert forall|j: int| 5 < j <= 18 implies (m & #[trigger] ladder_bit(j)) == (p
                & ladder_bit(j)) by {}
            lemma_chain_gap_down(m, p, 5, 0x3_457f_b30e_8785int);
            assert(down_gap_floor(0xee5int, 18) == 0xee5int);
            assert(down_gap_floor(0x6fe1_5df5int, 17) == down_gap_floor(0xee5int, 18));
            assert(down_gap_floor(0x132_9818_9376int, 16) == down_gap_floor(0x6fe1_5df5int, 17));
            assert(down_gap_floor(0x1fb8_9d09_8027int, 15) == down_gap_floor(0x132_9818_9376int, 16));
            assert(down_gap_floor(0xa340_c9a7_87ceint, 14) == down_gap_floor(0x1fb8_9d09_8027int, 15));
            assert(down_gap_floor(0x1_725a_c09c_4e44int, 13) == down_gap_floor(0xa340_c9a7_87ceint, 14));
            assert(down_gap_floor(0x2_2dd2_784b_654dint, 12) == down_gap_floor(0x1_725a_c09c_4e44int, 13));
            assert(down_gap_floor(0x2_ac98_c2eb_8210int, 11) == down_gap_floor(0x2_2dd2_784b_654dint, 12));
            assert(down_gap_floor(0x2_f669_17ce_75a4int, 10) == down_gap_floor(0x2_ac98_c2eb_8210int, 11));
            assert(down_gap_floor(0x3_1e40_167f_cea7int, 9) == down_gap_floor(0x2_f669_17ce_75a4int, 10));
            assert(down_gap_floor(0x3_32f2_c52a_8739int, 8) == down_gap_floor(0x3_1e40_167f_cea7int, 9));
            assert(down_gap_floor(0x3_3d7f_6989_059bint, 7) == down_gap_floor(0x3_32f2_c52a_8739int, 8));
            assert(down_gap_floor(0x3_42d2_c04b_6b5bint, 6) == down_gap_floor(0x3_3d7f_6989_059bint, 7));
            assert(down_gap_floor(0x3_457f_b30e_8785int, 5) == down_gap_floor(0x3_42d2_c04b_6b5bint, 6));
            assert(down_gap_floor(0x3_457f_b30e_8785int, 5) >= 1);
    } else if m & 0x40 != 0 {
            assert(p & 0x1 != 0 && p & 0x2 != 0 && p & 0x4 != 0 && p & 0x8 != 0 && p & 0x10 != 0 && p & 0x20 != 0 && p & 0x40 == 0 && p & 0x80 == m & 0x80 && p & 0x100 == m & 0x100 && p & 0x200 == m & 0x200 && p & 0x400 == m & 0x400 && p & 0x800 == m & 0x800 && p & 0x1000 == m & 0x1000 && p & 0x2000 == m & 0x2000 && p & 0x4000 == m & 0x4000 && p & 0x8000 == m & 0x8000 && p & 0x1_0000 == m & 0x1_0000 && p & 0x2_0000 == m & 0x2_0000 && p & 0x4_0000 == m & 0x4_0000) by (bit_vector)
                requires
                    m & 0x1 == 0u32,
                    m & 0x2 == 0u32,
                    m & 0x4 == 0u32,
                    m & 0x8 == 0u32,
                    m & 0x10 == 0u32,
                    m & 0x20 == 0u32,
                    m & 0x40 != 0u32,
                    m >= 1u32,
                    p == m - 1,
            ;
            assert(down_chain(m, 0) == Q64 as int);
            assert(down_chain(p, 0) == 0xfffc_b933_bd6f_ad37int);
            assert(down_chain(m, 1) == Q64 as int);
            assert(down_chain(p, 1) == 0xfff6_2bbb_6d45_8ec2int);
            assert(down_chain(m, 2) == Q64 as int);
            assert(down_chain(p, 2) == 0xffe9_114b_9cf2_8d36int);
            assert(down_chain(m, 3) == Q64 as int);
            assert(down_chain(p, 3) == 0xffce_de6f_1d8b_e908int);
            assert(down_chain(m, 4) == Q64 as int);
            assert(down_chain(p, 4) == 0xff9a_80c1_ada7_4806int);
            assert(down_chain(m, 5) == Q64 as int);
            assert(down_chain(p, 5) == 0xff31_e58d_5a53_c84aint);
            assert(down_chain(m, 6) == 0xff2e_a164_66c9_6a38int);
            assert(down_chain(p, 6) == 0xff31_e58d_5a53_c84aint);
            assert forall|j: int| 6 < j <= 18 implies (m & #[trigger] ladder_bit(j)) == (p
                & ladder_bit(j)) by {}
            lemma_chain_gap_down(m, p, 6, 0x3_4428_f38a_5e12int);
            assert(down_gap_floor(0xeecint, 18) == 0xeecint);
            assert(down_gap_floor(0x700f_3a44int, 17) == down_gap_floor(0xeecint, 18));
            assert(down_gap_floor(0x133_15c5_6c46int, 16) == down_gap_floor(0x700f_3a44int, 17));
            assert(down_gap_floor(0x1fc5_9dbc_76d2int, 15) == down_gap_floor(0x133_15c5_6c46int, 16));
            assert(down_gap_floor(0xa383_b4d3_3340int, 14) == down_gap_floor(0x1fc5_9dbc_76d2int, 15));
            assert(down_gap_floor(0x1_72f2_903b_f4e9int, 13) == down_gap_floor(0xa383_b4d3_3340int, 14));
            assert(down_gap_floor(0x2_2eb7_2013_596dint, 12) == down_gap_floor(0x1_72f2_903b_f4e9int, 13));
            assert(down_gap_floor(0x2_adb1_61f4_1457int, 11) == down_gap_floor(0x2_2eb7_2013_596dint, 12));
            assert(down_gap_floor(0x2_f79f_f895_c592int, 10) == down_gap_floor(0x2_adb1_61f4_1457int, 11));
            assert(down_gap_floor(0x3_1f87_4beb_b3d3int, 9) == down_gap_floor(0x2_f79f_f895_c592int, 10));
            assert(down_gap_floor(0x3_3442_768e_6e7fint, 8) == down_gap_floor(0x3_1f87_4beb_b3d3int, 9));
            assert(down_gap_floor(0x3_3ed3_6df0_41d7int, 7) == down_gap_floor(0x3_3442_768e_6e7fint, 8));
            assert(down_gap_floor(0x3_4428_f38a_5e12int, 6) == down_gap_floor(0x3_3ed3_6df0_41d7int, 7));
            assert(down_gap_floor(0x3_4428_f38a_5e12int, 6) >= 1);
    } else if m & 0x80 != 0 {
            assert(p & 0x1 != 0 && p & 0x2 != 0 && p & 0x4 != 0 && p & 0x8 != 0 && p & 0x10 != 0 && p & 0x20 != 0 && p & 0x40 != 0 && p & 0x80 == 0 && p & 0x100 == m & 0x100 && p & 0x200 == m & 0x200 && p & 0x400 == m & 0x400 && p & 0x800 == m & 0x800 && p & 0x1000 == m & 0x1000 && p & 0x2000 == m & 0x2000 && p & 0x4000 == m & 0x4000 && p & 0x8000 == m & 0x8000 && p & 0x1_0000 == m & 0x1_0000 && p & 0x2_0000 == m & 0x2_0000 && p & 0x4_0000 == m & 0x4_0000) by (bit_vector)
                requires
                    m & 0x1 == 0u32,
                    m & 0x2 == 0u32,
                    m & 0x4 == 0u32,
                    m & 0x8 == 0u32,
                    m & 0x10 == 0u32,
                    m & 0x20 == 0u32,
                    m & 0x40 == 0u32,
                    m & 0x80 != 0u32,
                    m >= 1u32,
                    p == m - 1,
            ;
            assert(down_chain(m, 0) == Q64 as int);
            assert(down_chain(p, 0) == 0xfffc_b933_bd6f_ad37int);
            assert(down_chain(m, 1) == Q64 as int);
            assert(down_chain(p, 1) == 0xfff6_2bbb_6d45_8ec2int);
            assert(down_chain(m, 2) == Q64 as int);
            assert(down_chain(p, 2) == 0xffe9_114b_9cf2_8d36int);
            assert(down_chain(m, 3) == Q64 as int);
            assert(down_chain(p, 3) == 0xffce_de6f_1d8b_e908int);
            assert(down_chain(m, 4) == Q64 as int);
            assert(down_chain(p, 4) == 0xff9a_80c1_ada7_4806int);
            assert(down_chain(m, 5) == Q64 as int);
            assert(down_chain(p, 5) == 0xff31_e58d_5a53_c84aint);
            assert(down_chain(m, 6) == Q64 as int);
            assert(down_chain(p, 6) == 0xfe61_2f81_83b1_ea1bint);
            assert(down_chain(m, 7) == 0xfe5d_ee04_6a99_a2a8int);
            assert(down_chain(p, 7) == 0xfe61_2f81_83b1_ea1bint);
            assert forall|j: int| 7 < j <= 18 implies (m & #[trigger] ladder_bit(j)) == (p
                & ladder_bit(j)) by {}
            lemma_chain_gap_down(m, p, 7, 0x3_417d_1918_4773int);
            assert(down_gap_floor(0xef8int, 18) == 0xef8int);
            assert(down_gap_floor(0x706b_2b4eint, 17) == down_gap_floor(0xef8int, 18));
            assert(down_gap_floor(0x134_11b9_beacint, 16) == down_gap_floor(0x706b_2b4eint, 17));
            assert(down_gap_floor(0x1fdf_af21_f35bint, 15) == down_gap_floor(0x134_11b9_beacint, 16));
            assert(down_gap_floor(0xa409_dd80_5c87int, 14) == down_gap_floor(0x1fdf_af21_f35bint, 15));
            assert(down_gap_floor(0x1_7422_ea44_387cint, 13) == down_gap_floor(0xa409_dd80_5c87int, 14));
            assert(down_gap_floor(0x2_3081_88f8_6a6aint, 12) == down_gap_floor(0x1_7422_ea44_387cint, 13));
            assert(down_gap_floor(0x2_afe3_f94a_6a5bint, 11) == down_gap_floor(0x2_3081_88f8_6a6aint, 12));
            assert(down_gap_floor(0x2_fa0f_38a3_c962int, 10) == down_gap_floor(0x2_afe3_f94a_6a5bint, 11));
            assert(down_gap_floor(0x3_2217_495a_a7e9int, 9) == down_gap_floor(0x2_fa0f_38a3_c962int, 10));
            assert(down_gap_floor(0x3_36e3_765d_beb4int, 8) == down_gap_floor(0x3_2217_495a_a7e9int, 9));
            assert(down_gap_floor(0x3_417d_1918_4773int, 7) == down_gap_floor(0x3_36e3_765d_beb4int, 8));
            assert(down_gap_floor(0x3_417d_1918_4773int, 7) >= 1);
    } else if m & 0x100 != 0 {
            assert(p & 0x1 != 0 && p & 0x2 != 0 && p & 0x4 != 0 && p & 0x8 != 0 && p & 0x10 != 0 && p & 0x20 != 0 && p & 0x40 != 0 && p & 0x80 != 0 && p & 0x100 == 0 && p & 0x200 == m & 0x200 && p & 0x400 == m & 0x400 && p & 0x800 == m & 0x800 && p & 0x1000 == m & 0x1000 && p & 0x2000 == m & 0x2000 && p & 0x4000 == m & 0x4000 && p & 0x8000 == m & 0x8000 && p & 0x1_0000 == m & 0x1_0000 && p & 0x2_0000 == m & 0x2_0000 && p & 0x4_0000 == m & 0x4_0000) by (bit_vector)
                requires
                    m & 0x1 == 0u32,
                    m & 0x2 == 0u32,
                    m & 0x4 == 0u32,
                    m & 0x8 == 0u32,
                    m & 0x10 == 0u32,
                    m & 0x20 == 0u32,
                    m & 0x40 == 0u32,
                    m & 0x80 == 0u32,
                    m & 0x100 != 0u32,
                    m >= 1u32,
                    p == m - 1,
            ;
            assert(down_chain(m, 0) == Q64 as int);
            assert(down_chain(p, 0) == 0xfffc_b933_bd6f_ad37int);
            assert(down_chain(m, 1) == Q64 as int);
            assert(down_chain(p, 1) == 0xfff6_2bbb_6d45_8ec2int);
            assert(down_chain(m, 2) == Q64 as int);
            assert(down_chain(p, 2) == 0xffe9_114b_9cf2_8d36int);
            assert(down_chain(m, 3) == Q64 as int);
            assert(down_chain(p, 3) == 0xffce_de6f_1d8b_e908int);
            assert(down_chain(m, 4) == Q64 as int);
            assert(down_chain(p, 4) == 0xff9a_80c1_ada7_4806int);
            assert(down_chain(m, 5) == Q64 as int);
            assert(down_chain(p, 5) == 0xff31_e58d_5a53_c84aint);
            assert(down_chain(m, 6) == Q64 as int);
            assert(down_chain(p, 6) == 0xfe61_2f81_83b1_ea1bint);
            assert(down_chain(m, 7) == Q64 as int);
            assert(down_chain(p, 7) == 0xfcc1_c2f3_8053_6bbfint);
            assert(down_chain(m, 8) == 0xfcbe_86c7_900a_88aeint);
            assert(down_chain(p, 8) == 0xfcc1_c2f3_8053_6bbfint);
            assert forall|j: int| 8 < j <= 18 implies (m & #[trigger] ladder_bit(j)) == (p
                & ladder_bit(j)) by {}
            lemma_chain_gap_down(m, p, 8, 0x3_3c2b_f048_e311int);
            assert(down_gap_floor(0xf10int, 18) == 0xf10int);
            assert(down_gap_floor(0x7123_efeeint, 17) == down_gap_floor(0xf10int, 18));
            assert(down_gap_floor(0x136_0c0f_3703int, 16) == down_gap_floor(0x7123_efeeint, 17));
            assert(down_gap_floor(0x2014_1228_7505int, 15) == down_gap_floor(0x136_0c0f_3703int, 16));
            assert(down_gap_floor(0xa517_796d_6ea2int, 14) == down_gap_floor(0x2014_1228_7505int, 15));
            assert(down_gap_floor(0x1_7686_8c44_3fbaint, 13) == down_gap_floor(0xa517_796d_6ea2int, 14));
            assert(down_gap_floor(0x2_341a_c44d_16c5int, 12) == down_gap_floor(0x1_7686_8c44_3fbaint, 13));
            assert(down_gap_floor(0x2_b44e_9236_bc80int, 11) == down_gap_floor(0x2_341a_c44d_16c5int, 12));
            assert(down_gap_floor(0x2_fef3_b876_e34dint, 10) == down_gap_floor(0x2_b44e_9236_bc80int, 11));
            assert(down_gap_floor(0x3_273d_949b_b580int, 9) == down_gap_floor(0x2_fef3_b876_e34dint, 10));
            assert(down_gap_floor(0x3_3c2b_f048_e311int, 8) == down_gap_floor(0x3_273d_949b_b580int, 9));
            assert(down_gap_floor(0x3_3c2b_f048_e311int, 8) >= 1);
    } else if m & 0x200 != 0 {
            assert(p & 0x1 != 0 && p & 0x2 != 0 && p & 0x4 != 0 && p & 0x8 != 0 && p & 0x10 != 0 && p & 0x20 != 0 && p & 0x40 != 0 && p & 0x80 != 0 && p & 0x100 != 0 && p & 0x200 == 0 && p & 0x400 == m & 0x400 && p & 0x800 == m & 0x800 && p & 0x1000 == m & 0x1000 && p & 0x2000 == m & 0x2000 && p & 0x4000 == m & 0x4000 && p & 0x8000 == m & 0x8000 && p & 0x1_0000 == m & 0x1_0000 && p & 0x2_0000 == m & 0x2_0000 && p & 0x4_0000 == m & 0x4_0000) by (bit_vector)
                requires
                    m & 0x1 == 0u32,
                    m & 0x2 == 0u32,
                    m & 0x4 == 0u32,
                    m & 0x8 == 0u32,
                    m & 0x10 == 0u32,
                    m & 0x20 == 0u32,
                    m & 0x40 == 0u32,
                    m & 0x80 == 0u32,
                    m & 0x100 == 0u32,
                    m & 0x200 != 0u32,
                    m >= 1u32,
                    p == m - 1,
            ;
            assert(down_chain(m, 0) == Q64 as int);
            assert(down_chain(p, 0) == 0xfffc_b933_bd6f_ad37int);
            assert(down_chain(m, 1) == Q64 as int);
            assert(down_chain(p, 1) == 0xfff6_2bbb_6d45_8ec2int);
            assert(down_chain(m, 2) == Q64 as int);
            assert(down_chain(p, 2) == 0xffe9_114b_9cf2_8d36int);
            assert(down_chain(m, 3) == Q64 as int);
            assert(down_chain(p, 3) == 0xffce_de6f_1d8b_e908int);
            assert(down_chain(m, 4) == Q64 as int);
            assert(down_chain(p, 4) == 0xff9a_80c1_ada7_4806int);
            assert(down_chain(m, 5) == Q64 as int);
            assert(down_chain(p, 5) == 0xff31_e58d_5a53_c84aint);
            assert(down_chain(m, 6) == Q64 as int);
            assert(down_chain(p, 6) == 0xfe61_2f81_83b1_ea1bint);
            assert(down_chain(m, 7) == Q64 as int);
            assert(down_chain(p, 7) == 0xfcc1_c2f3_8053_6bbfint);
            assert(down_chain(m, 8) == Q64 as int);
            assert(down_chain(p, 8) == 0xf98a_d8c8_d7ec_c09bint);
            assert(down_chain(m, 9) == 0xf987_a725_3ac4_1317int);
            assert(down_chain(p, 9) == 0xf98a_d8c8_d7ec_c09bint);
            assert forall|j: int| 9 < j <= 18 implies (m & #[trigger] ladder_bit(j)) == (p
                & ladder_bit(j)) by {}
            lemma_chain_gap_down(m, p, 9, 0x3_31a3_9d28_ad84int);
            assert(down_gap_floor(0xf42int, 18) == 0xf42int);
            assert(down_gap_floor(0x7299_0a2cint, 17) == down_gap_floor(0xf42int, 18));
            assert(down_gap_floor(0x13a_0a80_15fdint, 16) == down_gap_floor(0x7299_0a2cint, 17));
            assert(down_gap_floor(0x207d_db10_ed62int, 15) == down_gap_floor(0x13a_0a80_15fdint, 16));
            assert(down_gap_floor(0xa737_e57d_74afint, 14) == down_gap_floor(0x207d_db10_ed62int, 15));
            assert(down_gap_floor(0x1_7b59_9e82_0230int, 13) == down_gap_floor(0xa737_e57d_74afint, 14));
            assert(down_gap_floor(0x2_3b5f_0303_c520int, 12) == down_gap_floor(0x1_7b59_9e82_0230int, 13));
            assert(down_gap_floor(0x2_bd39_96a4_b9f9int, 11) == down_gap_floor(0x2_3b5f_0303_c520int, 12));
            assert(down_gap_floor(0x3_08d4_e50c_1225int, 10) == down_gap_floor(0x2_bd39_96a4_b9f9int, 11));
            assert(down_gap_floor(0x3_31a3_9d28_ad84int, 9) == down_gap_floor(0x3_08d4_e50c_1225int, 10));
            assert(down_gap_floor(0x3_31a3_9d28_ad84int, 9) >= 1);
    } else {
        lemma_down_adjacent_high(m, p);
    }
}

/// A band of carry cases of the downward adjacent-tick law.
#[verifier::rlimit(100)]
proof fn lemma_down_adjacent_high(m: u32, p: u32)
    requires
        1 <= m <= 443636,
        p == m - 1,
        m & 0x1 == 0,
        m & 0x2 == 0,
        m & 0x4 == 0,
        m & 0x8 == 0,
        m & 0x10 == 0,
        m & 0x20 == 0,
        m & 0x40 == 0,
        m & 0x80 == 0,
        m & 0x100 == 0,
        m & 0x200 == 0,
    ensures
        down_chain(m, 18) < down_chain(p, 18),
{
    if m & 0x400 != 0 {
            assert(p & 0x1 != 0 && p & 0x2 != 0 && p & 0x4 != 0 && p & 0x8 != 0 && p & 0x10 != 0 && p & 0x20 != 0 && p & 0x40 != 0 && p & 0x80 != 0 && p & 0x100 != 0 && p & 0x200 != 0 && p & 0x400 == 0 && p & 0x800 == m & 0x800 && p & 0x1000 == m & 0x1000 && p & 0x2000 == m & 0x2000 && p & 0x4000 == m & 0x4000 && p & 0x8000 == m & 0x8000 && p & 0x1_0000 == m & 0x1_0000 && p & 0x2_0000 == m & 0x2_0000 && p & 0x4_0000 == m & 0x4_0000) by (bit_vector)
                requires
                    m & 0x1 == 0u32,
                    m & 0x2 == 0u32,
                    m & 0x4 == 0u32,
                    m & 0x8 == 0u32,
                    m & 0x10 == 0u32,
                    m & 0x20 == 0u32,
                    m & 0x40 == 0u32,
                    m & 0x80 == 0u32,
                    m & 0x100 == 0u32,
                    m & 0x200 == 0u32,
                    m & 0x400 != 0u32,
                    m >= 1u32,
                    p == m - 1,
            ;
            assert(down_chain(m, 0) == Q64 as int);
            assert(down_chain(p, 0) == 0xfffc_b933_bd6f_ad37int);
            assert(down_chain(m, 1) == Q64 as int);
            assert(down_chain(p, 1) == 0xfff6_2bbb_6d45_8ec2int);
            assert(down_chain(m, 2) == Q64 as int);
            assert(down_chain(p, 2) == 0xffe9_114b_9cf2_8d36int);
            assert(down_chain(m, 3) == Q64 as int);
            assert(down_chain(p, 3) == 0xffce_de6f_1d8b_e908int);
            assert(down_chain(m, 4) == Q64 as int);
            assert(down_chain(p, 4) == 0xff9a_80c1_ada7_4806int);
            assert(down_chain(m, 5) == Q64 as int);
            assert(down_chain(p, 5) == 0xff31_e58d_5a53_c84aint);
            assert(down_chain(m, 6) == Q64 as int);
            assert(down_chain(p, 6) == 0xfe61_2f81_83b1_ea1bint);
            assert(down_chain(m, 7) == Q64 as int);
            assert(down_chain(p, 7) == 0xfcc1_c2f3_8053_6bbfint);
            assert(down_chain(m, 8) == Q64 as int);
            assert(down_chain(p, 8) == 0xf98a_d8c8_d7ec_c09bint);
            assert(down_chain(m, 9) == Q64 as int);
            assert(down_chain(p, 9) == 0xf33c_4801_89b4_151aint);
            assert(down_chain(m, 10) == 0xf339_2b08_22b7_0005int);
            assert(down_chain(p, 10) == 0xf33c_4801_89b4_151aint);
            assert forall|j: int| 10 < j <= 18 implies (m & #[trigger] ladder_bit(j)) == (p
                & ladder_bit(j)) by {}
            lemma_chain_gap_down(m, p, 10, 0x3_1cf9_66fd_1515int);
            assert(down_gap_floor(0xfa7int, 18) == 0xfa7int);
            assert(down_gap_floor(0x7591_b9a4int, 17) == down_gap_floor(0xfa7int, 18));
            assert(down_gap_floor(0x142_2f10_5b4eint, 16) == down_gap_floor(0x7591_b9a4int, 17));
            assert(down_gap_floor(0x2155_87ea_025eint, 15) == down_gap_floor(0x142_2f10_5b4eint, 16));
            assert(down_gap_floor(0xab8d_dec1_c9cfint, 14) == down_gap_floor(0x2155_87ea_025eint, 15));
            assert(down_gap_floor(0x1_852f_b21f_37d2int, 13) == down_gap_floor(0xab8d_dec1_c9cfint, 14));
            assert(down_gap_floor(0x2_4a2f_b307_3171int, 12) == down_gap_floor(0x1_852f_b21f_37d2int, 13));
            assert(down_gap_floor(0x2_cf68_3a92_3902int, 11) == down_gap_floor(0x2_4a2f_b307_3171int, 12));
            assert(down_gap_floor(0x3_1cf9_66fd_1515int, 10) == down_gap_floor(0x2_cf68_3a92_3902int, 11));
            assert(down_gap_floor(0x3_1cf9_66fd_1515int, 10) >= 1);
    } else if m & 0x800 != 0 {
            assert(p & 0x1 != 0 && p & 0x2 != 0 && p & 0x4 != 0 && p & 0x8 != 0 && p & 0x10 != 0 && p & 0x20 != 0 && p & 0x40 != 0 && p & 0x80 != 0 && p & 0x100 != 0 && p & 0x200 != 0 && p & 0x400 != 0 && p & 0x800 == 0 && p & 0x1000 == m & 0x1000 && p & 0x2000 == m & 0x2000 && p & 0x4000 == m & 0x4000 && p & 0x8000 == m & 0x8000 && p & 0x1_0000 == m & 0x1_0000 && p & 0x2_0000 == m & 0x2_0000 && p & 0x4_0000 == m & 0x4_0000) by (bit_vector)
                requires
                    m & 0x1 == 0u32,
                    m & 0x2 == 0u32,
                    m & 0x4 == 0u32,
                    m & 0x8 == 0u32,
                    m & 0x10 == 0u32,
                    m & 0x20 == 0u32,
                    m & 0x40 == 0u32,
                    m & 0x80 == 0u32,
                    m & 0x100 == 0u32,
                    m & 0x200 == 0u32,
                    m & 0x400 == 0u32,
                    m & 0x800 != 0u32,
                    m >= 1u32,
                    p == m - 1,
            ;
            assert(down_chain(m, 0) == Q64 as int);
            assert(down_chain(p, 0) == 0xfffc_b933_bd6f_ad37int);
            assert(down_chain(m, 1) == Q64 as int);
            assert(down_chain(p, 1) == 0xfff6_2bbb_6d45_8ec2int);
            assert(down_chain(m, 2) == Q64 as int);
            assert(down_chain(p, 2) == 0xffe9_114b_9cf2_8d36int);
            assert(down_chain(m, 3) == Q64 as int);
            assert(down_chain(p, 3) == 0xffce_de6f_1d8b_e908int);
            assert(down_chain(m, 4) == Q64 as int);
            assert(down_chain(p, 4) == 0xff9a_80c1_ada7_4806int);
            assert(down_chain(m, 5) == Q64 as int);
            assert(down_chain(p, 5) == 0xff31_e58d_5a53_c84aint);
            assert(down_chain(m, 6) == Q64 as int);
            assert(down_chain(p, 6) == 0xfe61_2f81_83b1_ea1bint);
            assert(down_chain(m, 7) == Q64 as int);
            assert(down_chain(p, 7) == 0xfcc1_c2f3_8053_6bbfint);
            assert(down_chain(m, 8) == Q64 as int);
            assert(down_chain(p, 8) == 0xf98a_d8c8_d7ec_c09bint);
            assert(down_chain(m, 9) == Q64 as int);
            assert(down_chain(p, 9) == 0xf33c_4801_89b4_151aint);
            assert(down_chain(m, 10) == Q64 as int);
            assert(down_chain(p, 10) == 0xe718_89a8_5903_fcfaint);
            assert(down_chain(m, 11) == 0xe715_9475_a2c2_9b74int);
            assert(down_chain(p, 11) == 0xe718_89a8_5903_fcfaint);
            assert forall|j: int| 11 < j <= 18 implies (m & #[trigger] ladder_bit(j)) == (p
                & ladder_bit(j)) by {}
            lemma_chain_gap_down(m, p, 11, 0x2_f532_b641_6186int);
            assert(down_gap_floor(0x107aint, 18) == 0x107aint);
            assert(down_gap_floor(0x7bbe_c77eint, 17) == down_gap_floor(0x107aint, 18));
            assert(down_gap_floor(0x153_1bbe_deadint, 16) == down_gap_floor(0x7bbe_c77eint, 17));
            assert(down_gap_floor(0x2315_cd9a_49caint, 15) == down_gap_floor(0x153_1bbe_deadint, 16));
            assert(down_gap_floor(0xb490_e7eb_0198int, 14) == down_gap_floor(0x2315_cd9a_49caint, 15));
            assert(down_gap_floor(0x1_99a1_6abf_0506int, 13) == down_gap_floor(0xb490_e7eb_0198int, 14));
            assert(down_gap_floor(0x2_68fa_a5ef_b5f0int, 12) == down_gap_floor(0x1_99a1_6abf_0506int, 13));
            assert(down_gap_floor(0x2_f532_b641_6186int, 11) == down_gap_floor(0x2_68fa_a5ef_b5f0int, 12));
            assert(down_gap_floor(0x2_f532_b641_6186int, 11) >= 1);
    } else if m & 0x1000 != 0 {
            assert(p & 0x1 != 0 && p & 0x2 != 0 && p & 0x4 != 0 && p & 0x8 != 0 && p & 0x10 != 0 && p & 0x20 != 0 && p & 0x40 != 0 && p & 0x80 != 0 && p & 0x100 != 0 && p & 0x200 != 0 && p & 0x400 != 0 && p & 0x800 != 0 && p & 0x1000 == 0 && p & 0x2000 == m & 0x2000 && p & 0x4000 == m & 0x4000 && p & 0x8000 == m & 0x8000 && p & 0x1_0000 == m & 0x1_0000 && p & 0x2_0000 == m & 0x2_0000 && p & 0x4_0000 == m & 0x4_0000) by (bit_vector)
                requires
                    m & 0x1 == 0u32,
                    m & 0x2 == 0u32,
                    m & 0x4 == 0u32,
                    m & 0x8 == 0u32,
                    m & 0x10 == 0u32,
                    m & 0x20 == 0u32,
                    m & 0x40 == 0u32,
                    m & 0x80 == 0u32,
                    m & 0x100 == 0u32,
                    m & 0x200 == 0u32,
                    m & 0x400 == 0u32,
                    m & 0x800 == 0u32,
                    m & 0x1000 != 0u32,
                    m >= 1u32,
                    p == m - 1,
            ;
            assert(down_chain(m, 0) == Q64 as int);
            assert(down_chain(p, 0) == 0xfffc_b933_bd6f_ad37int);
            assert(down_chain(m, 1) == Q64 as int);
            assert(down_chain(p, 1) == 0xfff6_2bbb_6d45_8ec2int);
            assert(down_chain(m, 2) == Q64 as int);
            assert(down_chain(p, 2) == 0xffe9_114b_9cf2_8d36int);
            assert(down_chain(m, 3) == Q64 as int);
            assert(down_chain(p, 3) == 0xffce_de6f_1d8b_e908int);
            assert(down_chain(m, 4) == Q64 as int);
            assert(down_chain(p, 4) == 0xff9a_80c1_ada7_4806int);
            assert(down_chain(m, 5) == Q64 as int);
            assert(down_chain(p, 5) == 0xff31_e58d_5a53_c84aint);
            assert(down_chain(m, 6) == Q64 as int);
            assert(down_chain(p, 6) == 0xfe61_2f81_83b1_ea1bint);
            assert(down_chain(m, 7) == Q64 as int);
            assert(down_chain(p, 7) == 0xfcc1_c2f3_8053_6bbfint);
            assert(down_chain(m, 8) == Q64 as int);
            assert(down_chain(p, 8) == 0xf98a_d8c8_d7ec_c09bint);
            assert(down_chain(m, 9) == Q64 as int);
            assert(down_chain(p, 9) == 0xf33c_4801_89b4_151aint);
            assert(down_chain(m, 10) == Q64 as int);
            assert(down_chain(p, 10) == 0xe718_89a8_5903_fcfaint);
            assert(down_chain(m, 11) == Q64 as int);
            assert(down_chain(p, 11) == 0xd09a_9f3e_93db_5809int);
            assert(down_chain(m, 12) == 0xd097_f3bd_fd20_22b8int);
            assert(down_chain(p, 12) == 0xd09a_9f3e_93db_5809int);
            assert forall|j: int| 12 < j <= 18 implies (m & #[trigger] ladder_bit(j)) == (p
                & ladder_bit(j)) by {}
            lemma_chain_gap_down(m, p, 12, 0x2_ab80_96bb_3551int);
            assert(down_gap_floor(0x1241int, 18) == 0x1241int);
            assert(down_gap_floor(0x8916_6973int, 17) == down_gap_floor(0x1241int, 18));
            assert(down_gap_floor(0x177_abdc_709bint, 16) == down_gap_floor(0x8916_6973int, 17));
            assert(down_gap_floor(0x26de_3a8c_e8d7int, 15) == down_gap_floor(0x177_abdc_709bint, 16));
            assert(down_gap_floor(0xc808_ea09_ae43int, 14) == down_gap_floor(0x26de_3a8c_e8d7int, 15));
            assert(down_gap_floor(0x1_c5cc_1833_8cc1int, 13) == down_gap_floor(0xc808_ea09_ae43int, 14));
            assert(down_gap_floor(0x2_ab80_96bb_3551int, 12) == down_gap_floor(0x1_c5cc_1833_8cc1int, 13));
            assert(down_gap_floor(0x2_ab80_96bb_3551int, 12) >= 1);
    } else if m & 0x2000 != 0 {
            assert(p & 0x1 != 0 && p & 0x2 != 0 && p & 0x4 != 0 && p & 0x8 != 0 && p & 0x10 != 0 && p & 0x20 != 0 && p & 0x40 != 0 && p & 0x80 != 0 && p & 0x100 != 0 && p & 0x200 != 0 && p & 0x400 != 0 && p & 0x800 != 0 && p & 0x1000 != 0 && p & 0x2000 == 0 && p & 0x4000 == m & 0x4000 && p & 0x8000 == m & 0x8000 && p & 0x1_0000 == m & 0x1_0000 && p & 0x2_0000 == m & 0x2_0000 && p & 0x4_0000 == m & 0x4_0000) by (bit_vector)
                requires
                    m & 0x1 == 0u32,
                    m & 0x2 == 0u32,
                    m & 0x4 == 0u32,
                    m & 0x8 == 0u32,
                    m & 0x10 == 0u32,
                    m & 0x20 == 0u32,
                    m & 0x40 == 0u32,
                    m & 0x80 == 0u32,
                    m & 0x100 == 0u32,
                    m & 0x200 == 0u32,
                    m & 0x400 == 0u32,
                    m & 0x800 == 0u32,
                    m & 0x1000 == 0u32,
                    m & 0x2000 != 0u32,
                    m >= 1u32,
                    p == m - 1,
            ;
            assert(down_chain(m, 0) == Q64 as int);
            assert(down_chain(p, 0) == 0xfffc_b933_bd6f_ad37int);
            assert(down_chain(m, 1) == Q64 as int);
            assert(down_chain(p, 1) == 0xfff6_2bbb_6d45_8ec2int);
            assert(down_chain(m, 2) == Q64 as int);
            assert(down_chain(p, 2) == 0xffe9_114b_9cf2_8d36int);
            assert(down_chain(m, 3) == Q64 as int);
            assert(down_chain(p, 3) == 0xffce_de6f_1d8b_e908int);
            assert(down_chain(m, 4) == Q64 as int);
            assert(down_chain(p, 4) == 0xff9a_80c1_ada7_4806int);
            assert(down_chain(m, 5) == Q64 as int);
            assert(down_chain(p, 5) == 0xff31_e58d_5a53_c84aint);
            assert(down_chain(m, 6) == Q64 as int);
            assert(down_chain(p, 6) == 0xfe61_2f81_83b1_ea1bint);
            assert(down_chain(m, 7) == Q64 as int);
            assert(down_chain(p, 7) == 0xfcc1_c2f3_8053_6bbfint);
            assert(down_chain(m, 8) == Q64 as int);
            assert(down_chain(p, 8) == 0xf98a_d8c8_d7ec_c09bint);
            assert(down_chain(m, 9) == Q64 as int);
            assert(down_chain(p, 9) == 0xf33c_4801_89b4_151aint);
            assert(down_chain(m, 10) == Q64 as int);
            assert(down_chain(p, 10) == 0xe718_89a8_5903_fcfaint);
            assert(down_chain(m, 11) == Q64 as int);
            assert(down_chain(p, 11) == 0xd09a_9f3e_93db_5809int);
            assert(down_chain(m, 12) == Q64 as int);
            assert(down_chain(p, 12) == 0xa9f9_7334_5b9e_6473int);
            assert(down_chain(m, 13) == 0xa9f7_4646_2d87_0fdfint);
            assert(down_chain(p, 13) == 0xa9f9_7334_5b9e_6473int);
            assert forall|j: int| 13 < j <= 18 implies (m & #[trigger] ladder_bit(j)) == (p
                & ladder_bit(j)) by {}
            lemma_chain_gap_down(m, p, 13, 0x2_2cee_2e17_5494int);
            assert(down_gap_floor(0x1667int, 18) == 0x1667int);
            assert(down_gap_floor(0xa83e_36daint, 17) == down_gap_floor(0x1667int, 18));
            assert(down_gap_floor(0x1cd_0c8d_9d88int, 16) == down_gap_floor(0xa83e_36daint, 17));
            assert(down_gap_floor(0x2fb3_9667_c8bfint, 15) == down_gap_floor(0x1cd_0c8d_9d88int, 16));
            assert(down_gap_floor(0xf57f_02ed_c844int, 14) == down_gap_floor(0x2fb3_9667_c8bfint, 15));
            assert(down_gap_floor(0x2_2cee_2e17_5494int, 13) == down_gap_floor(0xf57f_02ed_c844int, 14));
            assert(down_gap_floor(0x2_2cee_2e17_5494int, 13) >= 1);
    } else if m & 0x4000 != 0 {
            assert(p & 0x1 != 0 && p & 0x2 != 0 && p & 0x4 != 0 && p & 0x8 != 0 && p & 0x10 != 0 && p & 0x20 != 0 && p & 0x40 != 0 && p & 0x80 != 0 && p & 0x100 != 0 && p & 0x200 != 0 && p & 0x400 != 0 && p & 0x800 != 0 && p & 0x1000 != 0 && p & 0x2000 != 0 && p & 0x4000 == 0 && p & 0x8000 == m & 0x8000 && p & 0x1_0000 == m & 0x1_0000 && p & 0x2_0000 == m & 0x2_0000 && p & 0x4_0000 == m & 0x4_0000) by (bit_vector)
                requires
                    m & 0x1 == 0u32,
                    m & 0x2 == 0u32,
                    m & 0x4 == 0u32,
                    m & 0x8 == 0u32,
                    m & 0x10 == 0u32,
                    m & 0x20 == 0u32,
                    m & 0x40 == 0u32,
                    m & 0x80 == 0u32,
                    m & 0x100 == 0u32,
                    m & 0x200 == 0u32,
                    m & 0x400 == 0u32,
                    m & 0x800 == 0u32,
                    m & 0x1000 == 0u32,
                    m & 0x2000 == 0u32,
                    m & 0x4000 != 0u32,
                    m >= 1u32,
                    p == m - 1,
            ;
            assert(down_chain(m, 0) == Q64 as int);
            assert(down_chain(p, 0) == 0xfffc_b933_bd6f_ad37int);
            assert(down_chain(m, 1) == Q64 as int);
            assert(down_chain(p, 1) == 0xfff6_2bbb_6d45_8ec2int);
            assert(down_chain(m, 2) == Q64 as int);
            assert(down_chain(p, 2) == 0xffe9_114b_9cf2_8d36int);
            assert(down_chain(m, 3) == Q64 as int);
            assert(down_chain(p, 3) == 0xffce_de6f_1d8b_e908int);
            assert(down_chain(m, 4) == Q64 as int);
            assert(down_chain(p, 4) == 0xff9a_80c1_ada7_4806int);
            assert(down_chain(m, 5) == Q64 as int);
            assert(down_chain(p, 5) == 0xff31_e58d_5a53_c84aint);
            assert(down_chain(m, 6) == Q64 as int);
            assert(down_chain(p, 6) == 0xfe61_2f81_83b1_ea1bint);
            assert(down_chain(m, 7) == Q64 as int);
            assert(down_chain(p, 7) == 0xfcc1_c2f3_8053_6bbfint);
            assert(down_chain(m, 8) == Q64 as int);
            assert(down_chain(p, 8) == 0xf98a_d8c8_d7ec_c09bint);
            assert(down_chain(m, 9) == Q64 as int);
            assert(down_chain(p, 9) == 0xf33c_4801_89b4_151aint);
            assert(down_chain(m, 10) == Q64 as int);
            assert(down_chain(p, 10) == 0xe718_89a8_5903_fcfaint);
            assert(down_chain(m, 11) == Q64 as int);
            assert(down_chain(p, 11) == 0xd09a_9f3e_93db_5809int);
            assert(down_chain(m, 12) == Q64 as int);
            assert(down_chain(p, 12) == 0xa9f9_7334_5b9e_6473int);
            assert(down_chain(m, 13) == Q64 as int);
            assert(down_chain(p, 13) == 0x70d9_db64_85f0_4dd6int);
            assert(down_chain(m, 14) == 0x70d8_69a1_56d2_a1b8int);
            assert(down_chain(p, 14) == 0x70d9_db64_85f0_4dd6int);
            assert forall|j: int| 14 < j <= 18 implies (m & #[trigger] ladder_bit(j)) == (p
                & ladder_bit(j)) by {}
            lemma_chain_gap_down(m, p, 14, 0x1_71c3_2f1d_ac1eint);
            assert(down_gap_floor(0x21beint, 18) == 0x21beint);
            assert(down_gap_floor(0xfd67_ae96int, 17) == down_gap_floor(0x21beint, 18));
            assert(down_gap_floor(0x2b6_6cc1_fa5aint, 16) == down_gap_floor(0xfd67_ae96int, 17));
            assert(down_gap_floor(0x47d8_e6dd_352cint, 15) == down_gap_floor(0x2b6_6cc1_fa5aint, 16));
            assert(down_gap_floor(0x1_71c3_2f1d_ac1eint, 14) == down_gap_floor(0x47d8_e6dd_352cint, 15));
            assert(down_gap_floor(0x1_71c3_2f1d_ac1eint, 14) >= 1);
    } else if m & 0x8000 != 0 {
            assert(p & 0x1 != 0 && p & 0x2 != 0 && p & 0x4 != 0 && p & 0x8 != 0 && p & 0x10 != 0 && p & 0x20 != 0 && p & 0x40 != 0 && p & 0x80 != 0 && p & 0x100 != 0 && p & 0x200 != 0 && p & 0x400 != 0 && p & 0x800 != 0 && p & 0x1000 != 0 && p & 0x2000 != 0 && p & 0x4000 != 0 && p & 0x8000 == 0 && p & 0x1_0000 == m & 0x1_0000 && p & 0x2_0000 == m & 0x2_0000 && p & 0x4_0000 == m & 0x4_0000) by (bit_vector)
                requires
                    m & 0x1 == 0u32,
                    m & 0x2 == 0u32,
                    m & 0x4 == 0u32,
                    m & 0x8 == 0u32,
                    m & 0x10 == 0u32,
                    m & 0x20 == 0u32,
                    m & 0x40 == 0u32,
                    m & 0x80 == 0u32,
                    m & 0x100 == 0u32,
                    m & 0x200 == 0u32,
                    m & 0x400 == 0u32,
                    m & 0x800 == 0u32,
                    m & 0x1000 == 0u32,
                    m & 0x2000 == 0u32,
                    m & 0x4000 == 0u32,
                    m & 0x8000 != 0u32,
                    m >= 1u32,
                    p == m - 1,
            ;
            assert(down_chain(m, 0) == Q64 as int);
            assert(down_chain(p, 0) == 0xfffc_b933_bd6f_ad37int);
            assert(down_chain(m, 1) == Q64 as int);
            assert(down_chain(p, 1) == 0xfff6_2bbb_6d45_8ec2int);
            assert(down_chain(m, 2) == Q64 as int);
            assert(down_chain(p, 2) == 0xffe9_114b_9cf2_8d36int);
            assert(down_chain(m, 3) == Q64 as int);
            assert(down_chain(p, 3) == 0xffce_de6f_1d8b_e908int);
            assert(down_chain(m, 4) == Q64 as int);
            assert(down_chain(p, 4) == 0xff9a_80c1_ada7_4806int);
            assert(down_chain(m, 5) == Q64 as int);
            assert(down_chain(p, 5) == 0xff31_e58d_5a53_c84aint);
            assert(down_chain(m, 6) == Q64 as int);
            assert(down_chain(p, 6) == 0xfe61_2f81_83b1_ea1bint);
            assert(down_chain(m, 7) == Q64 as int);
            assert(down_chain(p, 7) == 0xfcc1_c2f3_8053_6bbfint);
            assert(down_chain(m, 8) == Q64 as int);
            assert(down_chain(p, 8) == 0xf98a_d8c8_d7ec_c09bint);
            assert(down_chain(m, 9) == Q64 as int);
            assert(down_chain(p, 9) == 0xf33c_4801_89b4_151aint);
            assert(down_chain(m, 10) == Q64 as int);
            assert(down_chain(p, 10) == 0xe718_89a8_5903_fcfaint);
            assert(down_chain(m, 11) == Q64 as int);
            assert(down_chain(p, 11) == 0xd09a_9f3e_93db_5809int);
            assert(down_chain(m, 12) == Q64 as int);
            assert(down_chain(p, 12) == 0xa9f9_7334_5b9e_6473int);
            assert(down_chain(m, 13) == Q64 as int);
            assert(down_chain(p, 13) == 0x70d9_db64_85f0_4dd6int);
            assert(down_chain(m, 14) == Q64 as int);
            assert(down_chain(p, 14) == 0x31be_b65d_91af_63aaint);
            assert(down_chain(m, 15) == 0x31be_135f_97d0_8fd9int);
            assert(down_chain(p, 15) == 0x31be_b65d_91af_63aaint);
            assert forall|j: int| 15 < j <= 18 implies (m & #[trigger] ladder_bit(j)) == (p
                & ladder_bit(j)) by {}
            lemma_chain_gap_down(m, p, 15, 0xa2fd_f9de_d3d1int);
            assert(down_gap_floor(0x4c8dint, 18) == 0x4c8dint);
            assert(down_gap_floor(0x2_3edf_5474int, 17) == down_gap_floor(0x4c8dint, 18));
            assert(down_gap_floor(0x627_5db8_dba5int, 16) == down_gap_floor(0x2_3edf_5474int, 17));
            assert(down_gap_floor(0xa2fd_f9de_d3d1int, 15) == down_gap_floor(0x627_5db8_dba5int, 16));
            assert(down_gap_floor(0xa2fd_f9de_d3d1int, 15) >= 1);
    } else if m & 0x1_0000 != 0 {
            assert(p & 0x1 != 0 && p & 0x2 != 0 && p & 0x4 != 0 && p & 0x8 != 0 && p & 0x10 != 0 && p & 0x20 != 0 && p & 0x40 != 0 && p & 0x80 != 0 && p & 0x100 != 0 && p & 0x200 != 0 && p & 0x400 != 0 && p & 0x800 != 0 && p & 0x1000 != 0 && p & 0x2000 != 0 && p & 0x4000 != 0 && p & 0x8000 != 0 && p & 0x1_0000 == 0 && p & 0x2_0000 == m & 0x2_0000 && p & 0x4_0000 == m & 0x4_0000) by (bit_vector)
                requires
                    m & 0x1 == 0u32,
                    m & 0x2 == 0u32,
                    m & 0x4 == 0u32,
                    m & 0x8 == 0u32,
                    m & 0x10 == 0u32,
                    m & 0x20 == 0u32,
                    m & 0x40 == 0u32,
                    m & 0x80 == 0u32,
                    m & 0x100 == 0u32,
                    m & 0x200 == 0u32,
                    m & 0x400 == 0u32,
                    m & 0x800 == 0u32,
                    m & 0x1000 == 0u32,
                    m & 0x2000 == 0u32,
                    m & 0x4000 == 0u32,
                    m & 0x8000 == 0u32,
                    m & 0x1_0000 != 0u32,
                    m >= 1u32,
                    p == m - 1,
            ;
            assert(down_chain(m, 0) == Q64 as int);
            assert(down_chain(p, 0) == 0xfffc_b933_bd6f_ad37int);
            assert(down_chain(m, 1) == Q64 as int);
            assert(down_chain(p, 1) == 0xfff6_2bbb_6d45_8ec2int);
            assert(down_chain(m, 2) == Q64 as int);
            assert(down_chain(p, 2) == 0xffe9_114b_9cf2_8d36int);
            assert(down_chain(m, 3) == Q64 as int);
            assert(down_chain(p, 3) == 0xffce_de6f_1d8b_e908int);
            assert(down_chain(m, 4) == Q64 as int);
            assert(down_chain(p, 4) == 0xff9a_80c1_ada7_4806int);
            assert(down_chain(m, 5) == Q64 as int);
            assert(down_chain(p, 5) == 0xff31_e58d_5a53_c84aint);
            assert(down_chain(m, 6) == Q64 as int);
            assert(down_chain(p, 6) == 0xfe61_2f81_83b1_ea1bint);
            assert(down_chain(m, 7) == Q64 as int);
            assert(down_chain(p, 7) == 0xfcc1_c2f3_8053_6bbfint);
            assert(down_chain(m, 8) == Q64 as int);
            assert(down_chain(p, 8) == 0xf98a_d8c8_d7ec_c09bint);
            assert(down_chain(m, 9) == Q64 as int);
            assert(down_chain(p, 9) == 0xf33c_4801_89b4_151aint);
            assert(down_chain(m, 10) == Q64 as int);
            assert(down_chain(p, 10) == 0xe718_89a8_5903_fcfaint);
            assert(down_chain(m, 11) == Q64 as int);
            assert(down_chain(p, 11) == 0xd09a_9f3e_93db_5809int);
            assert(down_chain(m, 12) == Q64 as int);
            assert(down_chain(p, 12) == 0xa9f9_7334_5b9e_6473int);
            assert(down_chain(m, 13) == Q64 as int);
            assert(down_chain(p, 13) == 0x70d9_db64_85f0_4dd6int);
            assert(down_chain(m, 14) == Q64 as int);
            assert(down_chain(p, 14) == 0x31be_b65d_91af_63aaint);
            assert(down_chain(m, 15) == Q64 as int);
            assert(down_chain(p, 15) == 0x9aa_7036_fd23_5541int);
            assert(down_chain(m, 16) == 0x9aa_508b_5b7a_84e1int);
            assert(down_chain(p, 16) == 0x9aa_7036_fd23_5541int);
            assert forall|j: int| 16 < j <= 18 implies (m & #[trigger] ladder_bit(j)) == (p
                & ladder_bit(j)) by {}
            lemma_chain_gap_down(m, p, 16, 0x1fab_a1a8_d060int);
            assert(down_gap_floor(0x1_89f8int, 18) == 0x1_89f8int);
            assert(down_gap_floor(0xb_8e95_951aint, 17) == down_gap_floor(0x1_89f8int, 18));
            assert(down_gap_floor(0x1fab_a1a8_d060int, 16) == down_gap_floor(0xb_8e95_951aint, 17));
            assert(down_gap_floor(0x1fab_a1a8_d060int, 16) >= 1);
    } else if m & 0x2_0000 != 0 {
            assert(p & 0x1 != 0 && p & 0x2 != 0 && p & 0x4 != 0 && p & 0x8 != 0 && p & 0x10 != 0 && p & 0x20 != 0 && p & 0x40 != 0 && p & 0x80 != 0 && p & 0x100 != 0 && p & 0x200 != 0 && p & 0x400 != 0 && p & 0x800 != 0 && p & 0x1000 != 0 && p & 0x2000 != 0 && p & 0x4000 != 0 && p & 0x8000 != 0 && p & 0x1_0000 != 0 && p & 0x2_0000 == 0 && p & 0x4_0000 == m & 0x4_0000) by (bit_vector)
                requires
                    m & 0x1 == 0u32,
                    m & 0x2 == 0u32,
                    m & 0x4 == 0u32,
                    m & 0x8 == 0u32,
                    m & 0x10 == 0u32,
                    m & 0x20 == 0u32,
                    m & 0x40 == 0u32,
                    m & 0x80 == 0u32,
                    m & 0x100 == 0u32,
                    m & 0x200 == 0u32,
                    m & 0x400 == 0u32,
                    m & 0x800 == 0u32,
                    m & 0x1000 == 0u32,
                    m & 0x2000 == 0u32,
                    m & 0x4000 == 0u32,
                    m & 0x8000 == 0u32,
                    m & 0x1_0000 == 0u32,
                    m & 0x2_0000 != 0u32,
                    m >= 1u32,
                    p == m - 1,
            ;
            assert(down_chain(m, 0) == Q64 as int);
            assert(down_chain(p, 0) == 0xfffc_b933_bd6f_ad37int);
            assert(down_chain(m, 1) == Q64 as int);
            assert(down_chain(p, 1) == 0xfff6_2bbb_6d45_8ec2int);
            assert(down_chain(m, 2) == Q64 as int);
            assert(down_chain(p, 2) == 0xffe9_114b_9cf2_8d36int);
            assert(down_chain(m, 3) == Q64 as int);
            assert(down_chain(p, 3) == 0xffce_de6f_1d8b_e908int);
            assert(down_chain(m, 4) == Q64 as int);
            assert(down_chain(p, 4) == 0xff9a_80c1_ada7_4806int);
            assert(down_chain(m, 5) == Q64 as int);
            assert(down_chain(p, 5) == 0xff31_e58d_5a53_c84aint);
            assert(down_chain(m, 6) == Q64 as int);
            assert(down_chain(p, 6) == 0xfe61_2f81_83b1_ea1bint);
            assert(down_chain(m, 7) == Q64 as int);
            assert(down_chain(p, 7) == 0xfcc1_c2f3_8053_6bbfint);
            assert(down_chain(m, 8) == Q64 as int);
            assert(down_chain(p, 8) == 0xf98a_d8c8_d7ec_c09bint);
            assert(down_chain(m, 9) == Q64 as int);
            assert(down_chain(p, 9) == 0xf33c_4801_89b4_151aint);
            assert(down_chain(m, 10) == Q64 as int);
            assert(down_chain(p, 10) == 0xe718_89a8_5903_fcfaint);
            assert(down_chain(m, 11) == Q64 as int);
            assert(down_chain(p, 11) == 0xd09a_9f3e_93db_5809int);
            assert(down_chain(m, 12) == Q64 as int);
            assert(down_chain(p, 12) == 0xa9f9_7334_5b9e_6473int);
            assert(down_chain(m, 13) == Q64 as int);
            assert(down_chain(p, 13) == 0x70d9_db64_85f0_4dd6int);
            assert(down_chain(m, 14) == Q64 as int);
            assert(down_chain(p, 14) == 0x31be_b65d_91af_63aaint);
            assert(down_chain(m, 15) == Q64 as int);
            assert(down_chain(p, 15) == 0x9aa_7036_fd23_5541int);
            assert(down_chain(m, 16) == Q64 as int);
            assert(down_chain(p, 16) == 0x5d_6c2a_f97a_aa8dint);
            assert(down_chain(m, 17) == 0x5d_6af8_dedb_8119int);
            assert(down_chain(p, 17) == 0x5d_6c2a_f97a_aa8dint);
            assert forall|j: int| 17 < j <= 18 implies (m & #[trigger] ladder_bit(j)) == (p
                & ladder_bit(j)) by {}
            lemma_chain_gap_down(m, p, 17, 0x132_1a9f_2974int);
            assert(down_gap_floor(0x28_c2e9int, 18) == 0x28_c2e9int);
            assert(down_gap_floor(0x132_1a9f_2974int, 17) == down_gap_floor(0x28_c2e9int, 18));
            assert(down_gap_floor(0x132_1a9f_2974int, 17) >= 1);
    } else {
        assert(m & 0x4_0000 != 0) by (bit_vector)
            requires
                m <= 443636u32,
                m & 0x1 == 0u32,
                m & 0x2 == 0u32,
                m & 0x4 == 0u32,
                m & 0x8 == 0u32,
                m & 0x10 == 0u32,
                m & 0x20 == 0u32,
                m & 0x40 == 0u32,
                m & 0x80 == 0u32,
                m & 0x100 == 0u32,
                m & 0x200 == 0u32,
                m & 0x400 == 0u32,
                m & 0x800 == 0u32,
                m & 0x1000 == 0u32,
                m & 0x2000 == 0u32,
                m & 0x4000 == 0u32,
                m & 0x8000 == 0u32,
                m & 0x1_0000 == 0u32,
                m & 0x2_0000 == 0u32,
                m >= 1u32,
        ;
            assert(p & 0x1 != 0 && p & 0x2 != 0 && p & 0x4 != 0 && p & 0x8 != 0 && p & 0x10 != 0 && p & 0x20 != 0 && p & 0x40 != 0 && p & 0x80 != 0 && p & 0x100 != 0 && p & 0x200 != 0 && p & 0x400 != 0 && p & 0x800 != 0 && p & 0x1000 != 0 && p & 0x2000 != 0 && p & 0x4000 != 0 && p & 0x8000 != 0 && p & 0x1_0000 != 0 && p & 0x2_0000 != 0 && p & 0x4_0000 == 0) by (bit_vector)
                requires
                    m & 0x1 == 0u32,
                    m & 0x2 == 0u32,
                    m & 0x4 == 0u32,
                    m & 0x8 == 0u32,
                    m & 0x10 == 0u32,
                    m & 0x20 == 0u32,
                    m & 0x40 == 0u32,
                    m & 0x80 == 0u32,
                    m & 0x100 == 0u32,
                    m & 0x200 == 0u32,
                    m & 0x400 == 0u32,
                    m & 0x800 == 0u32,
                    m & 0x1000 == 0u32,
                    m & 0x2000 == 0u32,
                    m & 0x4000 == 0u32,
                    m & 0x8000 == 0u32,
                    m & 0x1_0000 == 0u32,
                    m & 0x2_0000 == 0u32,
                    m & 0x4_0000 != 0u32,
                    m >= 1u32,
                    p == m - 1,
            ;
            assert(down_chain(m, 0) == Q64 as int);
            assert(down_chain(p, 0) == 0xfffc_b933_bd6f_ad37int);
            assert(down_chain(m, 1) == Q64 as int);
            assert(down_chain(p, 1) == 0xfff6_2bbb_6d45_8ec2int);
            assert(down_chain(m, 2) == Q64 as int);
            assert(down_chain(p, 2) == 0xffe9_114b_9cf2_8d36int);
            assert(down_chain(m, 3) == Q64 as int);
            assert(down_chain(p, 3) == 0xffce_de6f_1d8b_e908int);
            assert(down_chain(m, 4) == Q64 as int);
            assert(down_chain(p, 4) == 0xff9a_80c1_ada7_4806int);
            assert(down_chain(m, 5) == Q64 as int);
            assert(down_chain(p, 5) == 0xff31_e58d_5a53_c84aint);
            assert(down_chain(m, 6) == Q64 as int);
            assert(down_chain(p, 6) == 0xfe61_2f81_83b1_ea1bint);
            assert(down_chain(m, 7) == Q64 as int);
            assert(down_chain(p, 7) == 0xfcc1_c2f3_8053_6bbfint);
            assert(down_chain(m, 8) == Q64 as int);
            assert(down_chain(p, 8) == 0xf98a_d8c8_d7ec_c09bint);
            assert(down_chain(m, 9) == Q64 as int);
            assert(down_chain(p, 9) == 0xf33c_4801_89b4_151aint);
            assert(down_chain(m, 10) == Q64 as int);
            assert(down_chain(p, 10) == 0xe718_89a8_5903_fcfaint);
            assert(down_chain(m, 11) == Q64 as int);
            assert(down_chain(p, 11) == 0xd09a_9f3e_93db_5809int);
            assert(down_chain(m, 12) == Q64 as int);
            assert(down_chain(p, 12) == 0xa9f9_7334_5b9e_6473int);
            assert(down_chain(m, 13) == Q64 as int);
            assert(down_chain(p, 13) == 0x70d9_db64_85f0_4dd6int);
            assert(down_chain(m, 14) == Q64 as int);
            assert(down_chain(p, 14) == 0x31be_b65d_91af_63aaint);
            assert(down_chain(m, 15) == Q64 as int);
            assert(down_chain(p, 15) == 0x9aa_7036_fd23_5541int);
            assert(down_chain(m, 16) == Q64 as int);
            assert(down_chain(p, 16) == 0x5d_6c2a_f97a_aa8dint);
            assert(down_chain(m, 17) == Q64 as int);
            assert(down_chain(p, 17) == 0x2217_5538_8a66int);
            assert(down_chain(m, 18) == 0x2216_e584_f5faint);
            assert(down_chain(p, 18) == 0x2217_5538_8a66int);
            assert forall|j: int| 18 < j <= 18 implies (m & #[trigger] ladder_bit(j)) == (p
                & ladder_bit(j)) by {}
            lemma_chain_gap_down(m, p, 18, 0x6fb3_946cint);
            assert(down_gap_floor(0x6fb3_946cint, 18) == 0x6fb3_946cint);
            assert(down_gap_floor(0x6fb3_946cint, 18) >= 1);
    }
}
/// The mapping from ticks to square-root prices is strictly increasing:
/// a higher tick always has a strictly higher price.
pub proof fn lemma_sqrt_price_strictly_increasing(t1: int, t2: int)
    requires
        MIN_TICK as int <= t1 < t2 <= MAX_TICK as int,
    ensures
        sqrt_price_spec(t1) < sqrt_price_spec(t2),
    decreases t2 - t1,
{
    if t2 == t1 + 1 {
        if t1 >= 0 {
            lemma_up_adjacent(t1 as u32, t2 as u32);
        } else if t1 == -1 {
            assert(1u32 & 0x1 != 0  && 1u32 & 0x2 == 0 && 0u32 & 0x2 == 0 && 1u32 & 0x4 == 0 && 0u32 & 0x4 == 0 && 1u32 & 0x8 == 0 && 0u32 & 0x8 == 0 && 1u32 & 0x10 == 0 && 0u32 & 0x10 == 0 && 1u32 & 0x20 == 0 && 0u32 & 0x20 == 0 && 1u32 & 0x40 == 0 && 0u32 & 0x40 == 0 && 1u32 & 0x80 == 0 && 0u32 & 0x80 == 0 && 1u32 & 0x100 == 0 && 0u32 & 0x100 == 0 && 1u32 & 0x200 == 0 && 0u32 & 0x200 == 0 && 1u32 & 0x400 == 0 && 0u32 & 0x400 == 0 && 1u32 & 0x800 == 0 && 0u32 & 0x800 == 0 && 1u32 & 0x1000 == 0 && 0u32 & 0x1000 == 0 && 1u32 & 0x2000 == 0 && 0u32 & 0x2000 == 0 && 1u32 & 0x4000 == 0 && 0u32 & 0x4000 == 0 && 1u32 & 0x8000 == 0 && 0u32 & 0x8000 == 0 && 1u32 & 0x1_0000 == 0 && 0u32 & 0x1_0000 == 0 && 1u32 & 0x2_0000 == 0 && 0u32 & 0x2_0000 == 0 && 1u32 & 0x4_0000 == 0 && 0u32 & 0x4_0000 == 0 && 0u32 & 0x1 == 0) by (bit_vector);
            assert(down_chain(1u32, 0) == 0xfffc_b933_bd6f_ad37int);
            assert(up_chain(0u32, 0) == Q64 as int);
            assert(down_chain(1u32, 1) == 0xfffc_b933_bd6f_ad37int);
            assert(up_chain(0u32, 1) == Q64 as int);
            assert(down_chain(1u32, 2) == 0xfffc_b933_bd6f_ad37int);
            assert(up_chain(0u32, 2) == Q64 as int);
            assert(down_chain(1u32, 3) == 0xfffc_b933_bd6f_ad37int);
            assert(up_chain(0u32, 3) == Q64 as int);
            assert(down_chain(1u32, 4) == 0xfffc_b933_bd6f_ad37int);
            assert(up_chain(0u32, 4) == Q64 as int);
            assert(down_chain(1u32, 5) == 0xfffc_b933_bd6f_ad37int);
            assert(up_chain(0u32, 5) == Q64 as int);
            assert(down_chain(1u32, 6) == 0xfffc_b933_bd6f_ad37int);
            assert(up_chain(0u32, 6) == Q64 as int);
            assert(down_chain(1u32, 7) == 0xfffc_b933_bd6f_ad37int);
            assert(up_chain(0u32, 7) == Q64 as int);
            assert(down_chain(1u32, 8) == 0xfffc_b933_bd6f_ad37int);
            assert(up_chain(0u32, 8) == Q64 as int);
            assert(down_chain(1u32, 9) == 0xfffc_b933_bd6f_ad37int);
            assert(up_chain(0u32, 9) == Q64 as int);
            assert(down_chain(1u32, 10) == 0xfffc_b933_bd6f_ad37int);
            assert(up_chain(0u32, 10) == Q64 as int);
            assert(down_chain(1u32, 11) == 0xfffc_b933_bd6f_ad37int);
            assert(up_chain(0u32, 11) == Q64 as int);
            assert(down_chain(1u32, 12) == 0xfffc_b933_bd6f_ad37int);
            assert(up_chain(0u32, 12) == Q64 as int);
            assert(down_chain(1u32, 13) == 0xfffc_b933_bd6f_ad37int);
            assert(up_chain(0u32, 13) == Q64 as int);
            assert(down_chain(1u32, 14) == 0xfffc_b933_bd6f_ad37int);
            assert(up_chain(0u32, 14) == Q64 as int);
            assert(down_chain(1u32, 15) == 0xfffc_b933_bd6f_ad37int);
            assert(up_chain(0u32, 15) == Q64 as int);
            assert(down_chain(1u32, 16) == 0xfffc_b933_bd6f_ad37int);
            assert(up_chain(0u32, 16) == Q64 as int);
            assert(down_chain(1u32, 17) == 0xfffc_b933_bd6f_ad37int);
            assert(up_chain(0u32, 17) == Q64 as int);
            assert(down_chain(1u32, 18) == 0xfffc_b933_bd6f_ad37int);
            assert(up_chain(0u32, 18) == Q64 as int);
        } else {
            lemma_down_adjacent((-t1) as u32, (-t2) as u32);
        }
    } else {
        lemma_sqrt_price_strictly_increasing(t1, t2 - 1);
        lemma_sqrt_price_strictly_increasing(t2 - 1, t2);
    }
}

/// Converting a tick's square-root price back to a tick returns the same
/// tick: any tick that brackets the price the way `get_tick_at_sqrt_price`
/// promises is the tick itself, for every tick in bounds.
pub proof fn lemma_tick_round_trip(t: int, r: int)
    requires
        MIN_TICK as int <= t <= MAX_TICK as int,
        MIN_TICK as int <= r <= MAX_TICK as int,
        sqrt_price_spec(r) <= sqrt_price_spec(t),
        r < MAX_TICK as int ==> sqrt_price_spec(t) < sqrt_price_spec(r + 1),
    ensures
        r == t,
{
    if r < t {
        if r + 1 < t {
            lemma_sqrt_price_strictly_increasing(r + 1, t);
        }
    } else if r > t {
        lemma_sqrt_price_strictly_increasing(t, r);
    }
}

} // verus!
