//! Bidirectional conversion between a Q64.64 square-root price and an
//! integer tick index. The price at tick `t` is `1.0001^(t/2)` in Q64.64,
//! computed as a fixed unrolled product over a ladder of precomputed
//! ratio constants, one per bit of the tick magnitude.

use vstd::prelude::*;
use vstd::arithmetic::div_mod::{
    lemma_div_is_ordered, lemma_div_multiples_vanish, lemma_div_pos_is_pos,
    lemma_multiply_divide_lt,
};
use vstd::arithmetic::mul::lemma_mul_inequality;
use crate::error::ErrorCode;
use crate::full_math::{mul_shift_right_64, Q64};

verus! {

/// Smallest supported tick index.
pub const MIN_TICK: i32 = -443636;

/// Largest supported tick index.
pub const MAX_TICK: i32 = 443636;

/// Square-root price at `MIN_TICK`, the smallest supported price.
pub const MIN_SQRT_PRICE_X64: u128 = 0x1_0001_3b50;

/// Square-root price at `MAX_TICK`, the largest supported price.
pub const MAX_SQRT_PRICE_X64: u128 = 0xfffe_c4b1_35bb_7f2b_fdef_67e7;

/// Q64.64 fixed-point product: `floor(a * b / 2^64)`.
pub open spec fn mul_q64(a: int, b: int) -> int {
    (a * b) / (Q64 as int)
}

/// The tick-magnitude bit selected by ladder step `i`.
pub open spec fn ladder_bit(i: int) -> u32
    recommends
        1 <= i <= 18,
{
    if i == 1 {
        0x2
    } else if i == 2 {
        0x4
    } else if i == 3 {
        0x8
    } else if i == 4 {
        0x10
    } else if i == 5 {
        0x20
    } else if i == 6 {
        0x40
    } else if i == 7 {
        0x80
    } else if i == 8 {
        0x100
    } else if i == 9 {
        0x200
    } else if i == 10 {
        0x400
    } else if i == 11 {
        0x800
    } else if i == 12 {
        0x1000
    } else if i == 13 {
        0x2000
    } else if i == 14 {
        0x4000
    } else if i == 15 {
        0x8000
    } else if i == 16 {
        0x1_0000
    } else if i == 17 {
        0x2_0000
    } else {
        0x4_0000
    }
}

/// Q64.64 ratio `(1/1.0001)^(2^(i-1))`, truncated, for ladder step `i`.
pub open spec fn down_ratio(i: int) -> int
    recommends
        1 <= i <= 18,
{
    if i == 1 {
        0xfff9_7272_373d_4132int
    } else if i == 2 {
        0xfff2_e50f_5f65_6932int
    } else if i == 3 {
        0xffe5_caca_7e10_e4e6int
    } else if i == 4 {
        0xffcb_9843_d60f_6159int
    } else if i == 5 {
        0xff97_3b41_fa98_c081int
    } else if i == 6 {
        0xff2e_a164_66c9_6a38int
    } else if i == 7 {
        0xfe5d_ee04_6a99_a2a8int
    } else if i == 8 {
        0xfcbe_86c7_900a_88aeint
    } else if i == 9 {
        0xf987_a725_3ac4_1317int
    } else if i == 10 {
        0xf339_2b08_22b7_0005int
    } else if i == 11 {
        0xe715_9475_a2c2_9b74int
    } else if i == 12 {
        0xd097_f3bd_fd20_22b8int
    } else if i == 13 {
        0xa9f7_4646_2d87_0fdfint
    } else if i == 14 {
        0x70d8_69a1_56d2_a1b8int
    } else if i == 15 {
        0x31be_135f_97d0_8fd9int
    } else if i == 16 {
        0x9aa_508b_5b7a_84e1int
    } else if i == 17 {
        0x5d_6af8_dedb_8119int
    } else {
        0x2216_e584_f5faint
    }
}

/// Q64.64 ratio `1.0001^(2^(i-1))`, truncated, for ladder step `i`.
pub open spec fn up_ratio(i: int) -> int
    recommends
        1 <= i <= 18,
{
    if i == 1 {
        0x1_0006_8db8_bac7_10cbint
    } else if i == 2 {
        0x1_000d_1b9c_68ab_e5f7int
    } else if i == 3 {
        0x1_001a_37e4_a234_cb08int
    } else if i == 4 {
        0x1_0034_7278_ab0e_92adint
    } else if i == 5 {
        0x1_0068_efb0_0a52_5480int
    } else if i == 6 {
        0x1_00d2_0a63_b417_3839int
    } else if i == 7 {
        0x1_01a4_c11c_742d_d772int
    } else if i == 8 {
        0x1_034c_35c3_1f64_cfa6int
    } else if i == 9 {
        0x1_06a3_4b78_c8aa_ffbfint
    } else if i == 10 {
        0x1_0d72_a6a4_6ccd_8bceint
    } else if i == 11 {
        0x1_1b9a_258e_6392_8596int
    } else if i == 12 {
        0x1_3a2e_2bda_04f8_379fint
    } else if i == 13 {
        0x1_8195_4be6_9e0d_a8feint
    } else if i == 14 {
        0x2_44c2_655d_185a_0290int
    } else if i == 15 {
        0x5_2581_6eeb_9f93_5b1cint
    } else if i == 16 {
        0x1a_7c8d_00b5_5168_4ff4int
    } else if i == 17 {
        0x2bd_893d_0b2d_f7c9_7884int
    } else {
        0x7_8278_e1e1_9e44_8cf8_b95dint
    }
}

/// Downward ladder after steps `0..=i`: the Q64.64 value of
/// `(1/1.0001)^(m/2)` restricted to the low `i + 1` bits of `m`, one
/// truncating multiplication per set bit.
pub open spec fn down_chain(m: u32, i: int) -> int
    decreases i,
{
    if i <= 0 {
        if m & 0x1 != 0 {
            0xfffc_b933_bd6f_ad37int
        } else {
            Q64 as int
        }
    } else {
        if m & ladder_bit(i) != 0 {
            mul_q64(down_chain(m, i - 1), down_ratio(i))
        } else {
            down_chain(m, i - 1)
        }
    }
}

/// Upward ladder after steps `0..=i`: the Q64.64 value of `1.0001^(m/2)`
/// restricted to the low `i + 1` bits of `m`.
pub open spec fn up_chain(m: u32, i: int) -> int
    decreases i,
{
    if i <= 0 {
        if m & 0x1 != 0 {
            0x1_0003_46d6_ff11_672aint
        } else {
            Q64 as int
        }
    } else {
        if m & ladder_bit(i) != 0 {
            mul_q64(up_chain(m, i - 1), up_ratio(i))
        } else {
            up_chain(m, i - 1)
        }
    }
}

/// The canonical tick-to-price mapping: square-root price in Q64.64 for a
/// tick index in `[MIN_TICK, MAX_TICK]`.
pub open spec fn sqrt_price_spec(t: int) -> int {
    if t >= 0 {
        up_chain(t as u32, 18)
    } else {
        down_chain((-t) as u32, 18)
    }
}

/// One downward ladder step: multiplying by a ratio below one keeps the
/// value within `[slow, r]`, and the product stays far below 2^190.
proof fn lemma_ladder_step_down(r: int, c: int, rlow: int, slow: int)
    requires
        rlow <= r <= Q64 as int,
        0 <= c < Q64 as int,
        0 <= rlow,
        0 <= slow,
        slow * (Q64 as int) <= rlow * c,
    ensures
        0 <= r * c < 0x4000_0000_0000_0000_0000_0000_0000_0000_0000_0000_0000_0000,
        mul_q64(r, c) <= r,
        slow <= mul_q64(r, c),
{
    let q = Q64 as int;
    lemma_mul_inequality(rlow, r, c);
    assert(0 <= r * c && r * c < q * (r + 1) && r * c
        < 0x4000_0000_0000_0000_0000_0000_0000_0000_0000_0000_0000_0000) by (nonlinear_arith)
        requires
            0 <= r <= q,
            0 <= c < q,
            q == 0x1_0000_0000_0000_0000,
    ;
    lemma_multiply_divide_lt(r * c, q, r + 1);
    lemma_div_pos_is_pos(r * c, q);
    lemma_div_is_ordered(rlow * c, r * c, q);
    assert(slow <= (rlow * c) / q) by {
        lemma_div_is_ordered(slow * q, rlow * c, q);
        lemma_div_multiples_vanish(slow, q);
        assert(slow * q == q * slow) by (nonlinear_arith);
    }
}

/// One upward ladder step: multiplying by a ratio at or above one keeps
/// the value within `[r, sbound]`, and the product stays below 2^190.
proof fn lemma_ladder_step_up(r: int, d: int, rbound: int, sbound: int)
    requires
        0 <= r <= rbound,
        Q64 as int <= d,
        0 <= sbound,
        rbound * d < (sbound + 1) * (Q64 as int),
        (sbound + 1) * (Q64 as int)
            <= 0x4000_0000_0000_0000_0000_0000_0000_0000_0000_0000_0000_0000,
    ensures
        0 <= r * d < 0x4000_0000_0000_0000_0000_0000_0000_0000_0000_0000_0000_0000,
        r <= mul_q64(r, d),
        mul_q64(r, d) <= sbound,
{
    let q = Q64 as int;
    lemma_mul_inequality(r, rbound, d);
    assert(0 <= r * d) by (nonlinear_arith)
        requires
            0 <= r,
            0 <= d,
    ;
    assert(q * (sbound + 1) == (sbound + 1) * q) by (nonlinear_arith);
    lemma_multiply_divide_lt(r * d, q, sbound + 1);
    assert(r * q <= r * d) by (nonlinear_arith)
        requires
            q <= d,
            0 <= r,
    ;
    lemma_div_is_ordered(r * q, r * d, q);
    lemma_div_multiples_vanish(r, q);
    assert(r * q == q * r) by (nonlinear_arith);
}

/// Computes ladder steps `0..=9` of the downward ladder, exactly
/// matching `down_chain(m, 9)`.
#[verifier::rlimit(100)]
fn down_ladder_exec_low(m: u32) -> (r: u128)
    ensures
        r as int == down_chain(m, 9),
        0xf33c_4801_89b4_151a <= r <= Q64,
{
    let mut ratio: u128 = if m & 0x1 != 0 { 0xfffc_b933_bd6f_ad37 } else { Q64 };
    assert(ratio as int == down_chain(m, 0));
    assert(0xfffc_b933_bd6f_ad37int <= ratio as int <= Q64 as int);
    if m & 0x2 != 0 {
        proof {
            lemma_ladder_step_down(ratio as int, 0xfff9_7272_373d_4132int, 0xfffc_b933_bd6f_ad37int, 0xfff6_2bbb_6d45_8ec2int);
        }
        ratio = mul_shift_right_64(ratio, 0xfff9_7272_373d_4132);
    }
    assert(ratio as int == down_chain(m, 1));
    assert(0xfff6_2bbb_6d45_8ec2int <= ratio as int <= Q64 as int);
    if m & 0x4 != 0 {
        proof {
            lemma_ladder_step_down(ratio as int, 0xfff2_e50f_5f65_6932int, 0xfff6_2bbb_6d45_8ec2int, 0xffe9_114b_9cf2_8d36int);
        }
        ratio = mul_shift_right_64(ratio, 0xfff2_e50f_5f65_6932);
    }
    assert(ratio as int == down_chain(m, 2));
    assert(0xffe9_114b_9cf2_8d36int <= ratio as int <= Q64 as int);
    if m & 0x8 != 0 {
        proof {
            lemma_ladder_step_down(ratio as int, 0xffe5_caca_7e10_e4e6int, 0xffe9_114b_9cf2_8d36int, 0xffce_de6f_1d8b_e908int);
        }
        ratio = mul_shift_right_64(ratio, 0xffe5_caca_7e10_e4e6);
    }
    assert(ratio as int == down_chain(m, 3));
    assert(0xffce_de6f_1d8b_e908int <= ratio as int <= Q64 as int);
    if m & 0x10 != 0 {
        proof {
            lemma_ladder_step_down(ratio as int, 0xffcb_9843_d60f_6159int, 0xffce_de6f_1d8b_e908int, 0xff9a_80c1_ada7_4806int);
        }
        ratio = mul_shift_right_64(ratio, 0xffcb_9843_d60f_6159);
    }
    assert(ratio as int == down_chain(m, 4));
    assert(0xff9a_80c1_ada7_4806int <= ratio as int <= Q64 as int);
    if m & 0x20 != 0 {
        proof {
            lemma_ladder_step_down(ratio as int, 0xff97_3b41_fa98_c081int, 0xff9a_80c1_ada7_4806int, 0xff31_e58d_5a53_c84aint);
        }
        ratio = mul_shift_right_64(ratio, 0xff97_3b41_fa98_c081);
    }
    assert(ratio as int == down_chain(m, 5));
    assert(0xff31_e58d_5a53_c84aint <= ratio as int <= Q64 as int);
    if m & 0x40 != 0 {
        proof {
            lemma_ladder_step_down(ratio as int, 0xff2e_a164_66c9_6a38int, 0xff31_e58d_5a53_c84aint, 0xfe61_2f81_83b1_ea1bint);
        }
        ratio = mul_shift_right_64(ratio, 0xff2e_a164_66c9_6a38);
    }
    assert(ratio as int == down_chain(m, 6));
    assert(0xfe61_2f81_83b1_ea1bint <= ratio as int <= Q64 as int);
    if m & 0x80 != 0 {
        proof {
            lemma_ladder_step_down(ratio as int, 0xfe5d_ee04_6a99_a2a8int, 0xfe61_2f81_83b1_ea1bint, 0xfcc1_c2f3_8053_6bbfint);
        }
        ratio = mul_shift_right_64(ratio, 0xfe5d_ee04_6a99_a2a8);
    }
    assert(ratio as int == down_chain(m, 7));
    assert(0xfcc1_c2f3_8053_6bbfint <= ratio as int <= Q64 as int);
    if m & 0x100 != 0 {
        proof {
            lemma_ladder_step_down(ratio as int, 0xfcbe_86c7_900a_88aeint, 0xfcc1_c2f3_8053_6bbfint, 0xf98a_d8c8_d7ec_c09bint);
        }
        ratio = mul_shift_right_64(ratio, 0xfcbe_86c7_900a_88ae);
    }
    assert(ratio as int == down_chain(m, 8));
    assert(0xf98a_d8c8_d7ec_c09bint <= ratio as int <= Q64 as int);
    if m & 0x200 != 0 {
        proof {
            lemma_ladder_step_down(ratio as int, 0xf987_a725_3ac4_1317int, 0xf98a_d8c8_d7ec_c09bint, 0xf33c_4801_89b4_151aint);
        }
        ratio = mul_shift_right_64(ratio, 0xf987_a725_3ac4_1317);
    }
    assert(ratio as int == down_chain(m, 9));
    assert(0xf33c_4801_89b4_151aint <= ratio as int <= Q64 as int);
    ratio
}

/// Computes the downward ladder for a tick magnitude, exactly matching
/// `down_chain` and bounded within `[76162531, 2^64]`.
#[verifier::rlimit(100)]
fn down_ladder_exec(m: u32) -> (r: u128)
    ensures
        r as int == down_chain(m, 18),
        0x48a_25e3 <= r <= Q64,
{
    let mut ratio: u128 = down_ladder_exec_low(m);
    if m & 0x400 != 0 {
        proof {
            lemma_ladder_step_down(ratio as int, 0xf339_2b08_22b7_0005int, 0xf33c_4801_89b4_151aint, 0xe718_89a8_5903_fcfaint);
        }
        ratio = mul_shift_right_64(ratio, 0xf339_2b08_22b7_0005);
    }
    assert(ratio as int == down_chain(m, 10));
    assert(0xe718_89a8_5903_fcfaint <= ratio as int <= Q64 as int);
    if m & 0x800 != 0 {
        proof {
            lemma_ladder_step_down(ratio as int, 0xe715_9475_a2c2_9b74int, 0xe718_89a8_5903_fcfaint, 0xd09a_9f3e_93db_5809int);
        }
        ratio = mul_shift_right_64(ratio, 0xe715_9475_a2c2_9b74);
    }
    assert(ratio as int == down_chain(m, 11));
    assert(0xd09a_9f3e_93db_5809int <= ratio as int <= Q64 as int);
    if m & 0x1000 != 0 {
        proof {
            lemma_ladder_step_down(ratio as int, 0xd097_f3bd_fd20_22b8int, 0xd09a_9f3e_93db_5809int, 0xa9f9_7334_5b9e_6473int);
        }
        ratio = mul_shift_right_64(ratio, 0xd097_f3bd_fd20_22b8);
    }
    assert(ratio as int == down_chain(m, 12));
    assert(0xa9f9_7334_5b9e_6473int <= ratio as int <= Q64 as int);
    if m & 0x2000 != 0 {
        proof {
            lemma_ladder_step_down(ratio as int, 0xa9f7_4646_2d87_0fdfint, 0xa9f9_7334_5b9e_6473int, 0x70d9_db64_85f0_4dd6int);
        }
        ratio = mul_shift_right_64(ratio, 0xa9f7_4646_2d87_0fdf);
    }
    assert(ratio as int == down_chain(m, 13));
    assert(0x70d9_db64_85f0_4dd6int <= ratio as int <= Q64 as int);
    if m & 0x4000 != 0 {
        proof {
            lemma_ladder_step_down(ratio as int, 0x70d8_69a1_56d2_a1b8int, 0x70d9_db64_85f0_4dd6int, 0x31be_b65d_91af_63aaint);
        }
        ratio = mul_shift_right_64(ratio, 0x70d8_69a1_56d2_a1b8);
    }
    assert(ratio as int == down_chain(m, 14));
    assert(0x31be_b65d_91af_63aaint <= ratio as int <= Q64 as int);
    if m & 0x8000 != 0 {
        proof {
            lemma_ladder_step_down(ratio as int, 0x31be_135f_97d0_8fd9int, 0x31be_b65d_91af_63aaint, 0x9aa_7036_fd23_5541int);
        }
        ratio = mul_shift_right_64(ratio, 0x31be_135f_97d0_8fd9);
    }
    assert(ratio as int == down_chain(m, 15));
    assert(0x9aa_7036_fd23_5541int <= ratio as int <= Q64 as int);
    if m & 0x1_0000 != 0 {
        proof {
            lemma_ladder_step_down(ratio as int, 0x9aa_508b_5b7a_84e1int, 0x9aa_7036_fd23_5541int, 0x5d_6c2a_f97a_aa8dint);
        }
        ratio = mul_shift_right_64(ratio, 0x9aa_508b_5b7a_84e1);
    }
    assert(ratio as int == down_chain(m, 16));
    assert(0x5d_6c2a_f97a_aa8dint <= ratio as int <= Q64 as int);
    if m & 0x2_0000 != 0 {
        proof {
            lemma_ladder_step_down(ratio as int, 0x5d_6af8_dedb_8119int, 0x5d_6c2a_f97a_aa8dint, 0x2217_5538_8a66int);
        }
        ratio = mul_shift_right_64(ratio, 0x5d_6af8_dedb_8119);
    }
    assert(ratio as int == down_chain(m, 17));
    assert(0x2217_5538_8a66int <= ratio as int <= Q64 as int);
    if m & 0x4_0000 != 0 {
        proof {
            lemma_ladder_step_down(ratio as int, 0x2216_e584_f5faint, 0x2217_5538_8a66int, 0x48a_25e3int);
        }
        ratio = mul_shift_right_64(ratio, 0x2216_e584_f5fa);
    }
    assert(ratio as int == down_chain(m, 18));
    assert(0x48a_25e3int <= ratio as int <= Q64 as int);
    ratio
}

/// Computes ladder steps `0..=9` of the upward ladder, exactly matching
/// `up_chain(m, 9)`.
#[verifier::rlimit(100)]
fn up_ladder_exec_low(m: u32) -> (r: u128)
    ensures
        r as int == up_chain(m, 9),
        Q64 <= r <= 0x1_0d6f_33c8_21e3_0dfe,
{
    let mut ratio: u128 = if m & 0x1 != 0 { 0x1_0003_46d6_ff11_672a } else { Q64 };
    assert(ratio as int == up_chain(m, 0));
    assert(Q64 as int <= ratio as int <= 0x1_0003_46d6_ff11_672aint);
    if m & 0x2 != 0 {
        proof {
            lemma_ladder_step_up(ratio as int, 0x1_0006_8db8_bac7_10cbint, 0x1_0003_46d6_ff11_672aint, 0x1_0009_d4a5_3344_2b65int);
        }
        ratio = mul_shift_right_64(ratio, 0x1_0006_8db8_bac7_10cb);
    }
    assert(ratio as int == up_chain(m, 1));
    assert(Q64 as int <= ratio as int <= 0x1_0009_d4a5_3344_2b65int);
    if m & 0x4 != 0 {
        proof {
            lemma_ladder_step_up(ratio as int, 0x1_000d_1b9c_68ab_e5f7int, 0x1_0009_d4a5_3344_2b65int, 0x1_0016_f0c2_77c2_b1e2int);
        }
        ratio = mul_shift_right_64(ratio, 0x1_000d_1b9c_68ab_e5f7);
    }
    assert(ratio as int == up_chain(m, 2));
    assert(Q64 as int <= ratio as int <= 0x1_0016_f0c2_77c2_b1e2int);
    if m & 0x8 != 0 {
        proof {
            lemma_ladder_step_up(ratio as int, 0x1_001a_37e4_a234_cb08int, 0x1_0016_f0c2_77c2_b1e2int, 0x1_0031_2b00_8fee_64b3int);
        }
        ratio = mul_shift_right_64(ratio, 0x1_001a_37e4_a234_cb08);
    }
    assert(ratio as int == up_chain(m, 3));
    assert(Q64 as int <= ratio as int <= 0x1_0031_2b00_8fee_64b3int);
    if m & 0x10 != 0 {
        proof {
            lemma_ladder_step_up(ratio as int, 0x1_0034_7278_ab0e_92adint, 0x1_0031_2b00_8fee_64b3int, 0x1_0065_a78b_f36d_76adint);
        }
        ratio = mul_shift_right_64(ratio, 0x1_0034_7278_ab0e_92ad);
    }
    assert(ratio as int == up_chain(m, 4));
    assert(Q64 as int <= ratio as int <= 0x1_0065_a78b_f36d_76adint);
    if m & 0x20 != 0 {
        proof {
            lemma_ladder_step_up(ratio as int, 0x1_0068_efb0_0a52_5480int, 0x1_0065_a78b_f36d_76adint, 0x1_00ce_c0e7_3bed_a15cint);
        }
        ratio = mul_shift_right_64(ratio, 0x1_0068_efb0_0a52_5480);
    }
    assert(ratio as int == up_chain(m, 5));
    assert(Q64 as int <= ratio as int <= 0x1_00ce_c0e7_3bed_a15cint);
    if m & 0x40 != 0 {
        proof {
            lemma_ladder_step_up(ratio as int, 0x1_00d2_0a63_b417_3839int, 0x1_00ce_c0e7_3bed_a15cint, 0x1_01a1_74ed_91c3_16aaint);
        }
        ratio = mul_shift_right_64(ratio, 0x1_00d2_0a63_b417_3839);
    }
    assert(ratio as int == up_chain(m, 6));
    assert(Q64 as int <= ratio as int <= 0x1_01a1_74ed_91c3_16aaint);
    if m & 0x80 != 0 {
        proof {
            lemma_ladder_step_up(ratio as int, 0x1_01a4_c11c_742d_d772int, 0x1_01a1_74ed_91c3_16aaint, 0x1_0348_e428_c341_6ac9int);
        }
        ratio = mul_shift_right_64(ratio, 0x1_01a4_c11c_742d_d772);
    }
    assert(ratio as int == up_chain(m, 7));
    assert(Q64 as int <= ratio as int <= 0x1_0348_e428_c341_6ac9int);
    if m & 0x100 != 0 {
        proof {
            lemma_ladder_step_up(ratio as int, 0x1_034c_35c3_1f64_cfa6int, 0x1_0348_e428_c341_6ac9int, 0x1_069f_eeec_b133_5058int);
        }
        ratio = mul_shift_right_64(ratio, 0x1_034c_35c3_1f64_cfa6);
    }
    assert(ratio as int == up_chain(m, 8));
    assert(Q64 as int <= ratio as int <= 0x1_069f_eeec_b133_5058int);
    if m & 0x200 != 0 {
        proof {
            lemma_ladder_step_up(ratio as int, 0x1_06a3_4b78_c8aa_ffbfint, 0x1_069f_eeec_b133_5058int, 0x1_0d6f_33c8_21e3_0dfeint);
        }
        ratio = mul_shift_right_64(ratio, 0x1_06a3_4b78_c8aa_ffbf);
    }
    assert(ratio as int == up_chain(m, 9));
    assert(Q64 as int <= ratio as int <= 0x1_0d6f_33c8_21e3_0dfeint);
    ratio
}

/// Computes the upward ladder for a tick magnitude, exactly matching
/// `up_chain` and bounded within `[2^64, 4467844760619635881934135417749]`.
#[verifier::rlimit(100)]
fn up_ladder_exec(m: u32) -> (r: u128)
    ensures
        r as int == up_chain(m, 18),
        Q64 <= r <= 0x38_6462_90dd_96e2_0945_b106_db95,
{
    let mut ratio: u128 = up_ladder_exec_low(m);
    if m & 0x400 != 0 {
        proof {
            lemma_ladder_step_up(ratio as int, 0x1_0d72_a6a4_6ccd_8bceint, 0x1_0d6f_33c8_21e3_0dfeint, 0x1_1b96_8451_840e_de08int);
        }
        ratio = mul_shift_right_64(ratio, 0x1_0d72_a6a4_6ccd_8bce);
    }
    assert(ratio as int == up_chain(m, 10));
    assert(Q64 as int <= ratio as int <= 0x1_1b96_8451_840e_de08int);
    if m & 0x800 != 0 {
        proof {
            lemma_ladder_step_up(ratio as int, 0x1_1b9a_258e_6392_8596int, 0x1_1b96_8451_840e_de08int, 0x1_3a2a_266c_32f0_92b0int);
        }
        ratio = mul_shift_right_64(ratio, 0x1_1b9a_258e_6392_8596);
    }
    assert(ratio as int == up_chain(m, 11));
    assert(Q64 as int <= ratio as int <= 0x1_3a2a_266c_32f0_92b0int);
    if m & 0x1000 != 0 {
        proof {
            lemma_ladder_step_up(ratio as int, 0x1_3a2e_2bda_04f8_379fint, 0x1_3a2a_266c_32f0_92b0int, 0x1_8190_5c84_405e_6589int);
        }
        ratio = mul_shift_right_64(ratio, 0x1_3a2e_2bda_04f8_379f);
    }
    assert(ratio as int == up_chain(m, 12));
    assert(Q64 as int <= ratio as int <= 0x1_8190_5c84_405e_6589int);
    if m & 0x2000 != 0 {
        proof {
            lemma_ladder_step_up(ratio as int, 0x1_8195_4be6_9e0d_a8feint, 0x1_8190_5c84_405e_6589int, 0x2_44ba_f679_5ea0_f745int);
        }
        ratio = mul_shift_right_64(ratio, 0x1_8195_4be6_9e0d_a8fe);
    }
    assert(ratio as int == up_chain(m, 13));
    assert(Q64 as int <= ratio as int <= 0x2_44ba_f679_5ea0_f745int);
    if m & 0x4000 != 0 {
        proof {
            lemma_ladder_step_up(ratio as int, 0x2_44c2_655d_185a_0290int, 0x2_44ba_f679_5ea0_f745int, 0x5_2570_920a_b4c5_8946int);
        }
        ratio = mul_shift_right_64(ratio, 0x2_44c2_655d_185a_0290);
    }
    assert(ratio as int == up_chain(m, 14));
    assert(Q64 as int <= ratio as int <= 0x5_2570_920a_b4c5_8946int);
    if m & 0x8000 != 0 {
        proof {
            lemma_ladder_step_up(ratio as int, 0x5_2581_6eeb_9f93_5b1cint, 0x5_2570_920a_b4c5_8946int, 0x1a_7c36_37dd_9daf_3b77int);
        }
        ratio = mul_shift_right_64(ratio, 0x5_2581_6eeb_9f93_5b1c);
    }
    assert(ratio as int == up_chain(m, 15));
    assert(Q64 as int <= ratio as int <= 0x1a_7c36_37dd_9daf_3b77int);
    if m & 0x1_0000 != 0 {
        proof {
            lemma_ladder_step_up(ratio as int, 0x1a_7c8d_00b5_5168_4ff4int, 0x1a_7c36_37dd_9daf_3b77int, 0x2bd_8042_6c30_5faa_275eint);
        }
        ratio = mul_shift_right_64(ratio, 0x1a_7c8d_00b5_5168_4ff4);
    }
    assert(ratio as int == up_chain(m, 16));
    assert(Q64 as int <= ratio as int <= 0x2bd_8042_6c30_5faa_275eint);
    if m & 0x2_0000 != 0 {
        proof {
            lemma_ladder_step_up(ratio as int, 0x2bd_893d_0b2d_f7c9_7884int, 0x2bd_8042_6c30_5faa_275eint, 0x7_8260_46cb_fea9_04cd_c7feint);
        }
        ratio = mul_shift_right_64(ratio, 0x2bd_893d_0b2d_f7c9_7884);
    }
    assert(ratio as int == up_chain(m, 17));
    assert(Q64 as int <= ratio as int <= 0x7_8260_46cb_fea9_04cd_c7feint);
    if m & 0x4_0000 != 0 {
        proof {
            lemma_ladder_step_up(ratio as int, 0x7_8278_e1e1_9e44_8cf8_b95dint, 0x7_8260_46cb_fea9_04cd_c7feint, 0x38_6462_90dd_96e2_0945_b106_db95int);
        }
        ratio = mul_shift_right_64(ratio, 0x7_8278_e1e1_9e44_8cf8_b95d);
    }
    assert(ratio as int == up_chain(m, 18));
    assert(Q64 as int <= ratio as int <= 0x38_6462_90dd_96e2_0945_b106_db95int);
    ratio
}

/// Square-root price at a tick. Fails with `TickOutOfBounds` exactly when
/// the tick lies outside `[MIN_TICK, MAX_TICK]`; otherwise returns the
/// canonical mapping, which is positive and below 2^102.
pub fn get_sqrt_price_at_tick(tick: i32) -> (r: Result<u128, ErrorCode>)
    ensures
        MIN_TICK <= tick <= MAX_TICK ==> r == Ok::<u128, ErrorCode>(
            (sqrt_price_spec(tick as int) as u128),
        ),
        !(MIN_TICK <= tick <= MAX_TICK) ==> r == Err::<u128, ErrorCode>(
            ErrorCode::TickOutOfBounds,
        ),
        MIN_TICK <= tick <= MAX_TICK ==> 0 < sqrt_price_spec(tick as int)
            < 0x40_0000_0000_0000_0000_0000_0000,
{
    if tick < MIN_TICK || tick > MAX_TICK {
        return Err(ErrorCode::TickOutOfBounds);
    }
    if tick >= 0 {
        Ok(up_ladder_exec(tick as u32))
    } else {
        Ok(down_ladder_exec((-tick) as u32))
    }
}

/// Evaluates the two ladders at the extreme tick magnitude: the mapping
/// at `MIN_TICK` and `MAX_TICK` equals the published price-range bounds.
pub proof fn lemma_sqrt_price_at_bounds()
    ensures
        sqrt_price_spec(MIN_TICK as int) == MIN_SQRT_PRICE_X64 as int,
        sqrt_price_spec(MAX_TICK as int) == MAX_SQRT_PRICE_X64 as int,
{
    assert(443636u32 & 0x1 == 0 && 443636u32 & 0x2 == 0 && 443636u32 & 0x4 != 0 && 443636u32 & 0x8 == 0 && 443636u32 & 0x10 != 0 && 443636u32 & 0x20 != 0 && 443636u32 & 0x40 != 0 && 443636u32 & 0x80 != 0 && 443636u32 & 0x100 == 0 && 443636u32 & 0x200 == 0 && 443636u32 & 0x400 != 0 && 443636u32 & 0x800 == 0 && 443636u32 & 0x1000 == 0 && 443636u32 & 0x2000 == 0 && 443636u32 & 0x4000 != 0 && 443636u32 & 0x8000 != 0 && 443636u32 & 0x1_0000 == 0 && 443636u32 & 0x2_0000 != 0 && 443636u32 & 0x4_0000 != 0) by (bit_vector);
    assert(down_chain(443636u32, 0) == 0x1_0000_0000_0000_0000int);
    assert(up_chain(443636u32, 0) == 0x1_0000_0000_0000_0000int);
    assert(down_chain(443636u32, 1) == 0x1_0000_0000_0000_0000int);
    assert(up_chain(443636u32, 1) == 0x1_0000_0000_0000_0000int);
    assert(down_chain(443636u32, 2) == 0xfff2_e50f_5f65_6932int);
    assert(up_chain(443636u32, 2) == 0x1_000d_1b9c_68ab_e5f7int);
    assert(down_chain(443636u32, 3) == 0xfff2_e50f_5f65_6932int);
    assert(up_chain(443636u32, 3) == 0x1_000d_1b9c_68ab_e5f7int);
    assert(down_chain(443636u32, 4) == 0xffbe_8001_fdce_28e7int);
    assert(up_chain(443636u32, 4) == 0x1_0041_90c4_8bf9_15acint);
    assert(down_chain(443636u32, 5) == 0xff55_d612_4e34_a7c5int);
    assert(up_chain(443636u32, 5) == 0x1_00aa_9b54_c961_f1e8int);
    assert(down_chain(443636u32, 6) == 0xfe85_02a1_d2de_ba8aint);
    assert(up_chain(443636u32, 6) == 0x1_017d_31b2_d589_c2d2int);
    assert(down_chain(443636u32, 7) == 0xfce5_5b92_9084_e6ddint);
    assert(up_chain(443636u32, 7) == 0x1_0324_6554_5ff4_319bint);
    assert(down_chain(443636u32, 8) == 0xfce5_5b92_9084_e6ddint);
    assert(up_chain(443636u32, 8) == 0x1_0324_6554_5ff4_319bint);
    assert(down_chain(443636u32, 9) == 0xfce5_5b92_9084_e6ddint);
    assert(up_chain(443636u32, 9) == 0x1_0324_6554_5ff4_319bint);
    assert(down_chain(443636u32, 10) == 0xf046_2f80_12a8_0db8int);
    assert(up_chain(443636u32, 10) == 0x1_10c1_4d5e_d38f_5f8dint);
    assert(down_chain(443636u32, 11) == 0xf046_2f80_12a8_0db8int);
    assert(up_chain(443636u32, 11) == 0x1_10c1_4d5e_d38f_5f8dint);
    assert(down_chain(443636u32, 12) == 0xf046_2f80_12a8_0db8int);
    assert(up_chain(443636u32, 12) == 0x1_10c1_4d5e_d38f_5f8dint);
    assert(down_chain(443636u32, 13) == 0xf046_2f80_12a8_0db8int);
    assert(up_chain(443636u32, 13) == 0x1_10c1_4d5e_d38f_5f8dint);
    assert(down_chain(443636u32, 14) == 0x69e9_d324_5355_f04fint);
    assert(up_chain(443636u32, 14) == 0x2_6ac5_11c6_ecde_b1fdint);
    assert(down_chain(443636u32, 15) == 0x1494_64f8_9029_8e7bint);
    assert(up_chain(443636u32, 15) == 0xc_7080_addc_8812_62b0int);
    assert(down_chain(443636u32, 16) == 0x1494_64f8_9029_8e7bint);
    assert(up_chain(443636u32, 16) == 0xc_7080_addc_8812_62b0int);
    assert(down_chain(443636u32, 17) == 0x7_8282_21c7_7078int);
    assert(up_chain(443636u32, 17) == 0x2216_bb88_4ba6_6523_e0adint);
    assert(down_chain(443636u32, 18) == 0x1_0001_3b50int);
    assert(up_chain(443636u32, 18) == 0xfffe_c4b1_35bb_7f2b_fdef_67e7int);
    assert((-(MIN_TICK as int)) as u32 == 443636u32);
}

/// Greatest tick whose price does not exceed the given square-root price.
/// Fails with `PriceOutOfBounds` exactly when the price lies outside
/// `[MIN_SQRT_PRICE_X64, MAX_SQRT_PRICE_X64]`. On success the result `t`
/// brackets the price: `sqrt_price_spec(t) <= price`, and when `t` is not
/// the last tick, `price < sqrt_price_spec(t + 1)`; since the mapping is
/// strictly increasing, the bracketing tick is unique (see the order
/// laws' round-trip lemma).
pub fn get_tick_at_sqrt_price(sqrt_price_x64: u128) -> (r: Result<i32, ErrorCode>)
    ensures
        (sqrt_price_x64 < MIN_SQRT_PRICE_X64 || sqrt_price_x64 > MAX_SQRT_PRICE_X64) <==> r
            == Err::<i32, ErrorCode>(ErrorCode::PriceOutOfBounds),
        MIN_SQRT_PRICE_X64 <= sqrt_price_x64 <= MAX_SQRT_PRICE_X64 ==> r is Ok,
        r matches Ok(t) ==> MIN_TICK <= t <= MAX_TICK && sqrt_price_spec(t as int)
            <= sqrt_price_x64 as int && (t < MAX_TICK ==> (sqrt_price_x64 as int)
            < sqrt_price_spec(t as int + 1)),
{
    if sqrt_price_x64 < MIN_SQRT_PRICE_X64 || sqrt_price_x64 > MAX_SQRT_PRICE_X64 {
        return Err(ErrorCode::PriceOutOfBounds);
    }
    proof {
        lemma_sqrt_price_at_bounds();
    }
    let mut lo: i32 = MIN_TICK;
    let mut hi: i32 = MAX_TICK;
    while lo < hi
        invariant
            MIN_TICK <= lo <= hi <= MAX_TICK,
            MIN_SQRT_PRICE_X64 <= sqrt_price_x64 <= MAX_SQRT_PRICE_X64,
            sqrt_price_spec(lo as int) <= sqrt_price_x64 as int,
            hi < MAX_TICK ==> (sqrt_price_x64 as int) < sqrt_price_spec(hi as int + 1),
        decreases hi - lo,
    {
        let mid: i32 = lo + (hi - lo + 1) / 2;
        let probe = get_sqrt_price_at_tick(mid);
        let s: u128 = match probe {
            Ok(v) => v,
            Err(_) => 0,
        };
        assert(s as int == sqrt_price_spec(mid as int));
        if s <= sqrt_price_x64 {
            lo = mid;
        } else {
            hi = mid - 1;
        }
    }
    Ok(lo)
}

} // verus!
