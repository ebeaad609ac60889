//! Q64.64 fixed-point helpers: exact multiply-then-shift and
//! multiply-divide with floored or ceiled rounding and checked overflow.

use vstd::prelude::*;
use vstd::arithmetic::div_mod::{
    lemma_fundamental_div_mod, lemma_fundamental_div_mod_converse, lemma_mod_bound,
    lemma_multiply_divide_lt,
};
use vstd::arithmetic::mul::lemma_mul_inequality;

verus! {

/// One unit in Q64.64 fixed point: 2^64.
pub const Q64: u128 = 0x1_0000_0000_0000_0000;

/// Largest value a `u128` can hold.
pub const U128_MAX: u128 = 0xffff_ffff_ffff_ffff_ffff_ffff_ffff_ffff;

/// Ceiling division over the mathematical integers.
pub open spec fn div_ceil(x: int, d: int) -> int {
    (x + d - 1) / d
}

/// The four 64-bit half products of `a * b`: writing `a = ah * 2^64 + al`
/// and `b = bh * 2^64 + bl`, the product decomposes as
/// `a * b = ah*bh*2^128 + (ah*bl + al*bh)*2^64 + al*bl`, so
/// `floor(a * b / 2^64) = ah*bh*2^64 + ah*bl + al*bh + floor(al*bl / 2^64)`.
#[verifier::rlimit(60)]
proof fn lemma_mul_shift_decompose(a: u128, b: u128)
    ensures
        (a as int) * (b as int) / (Q64 as int) == (a as int / Q64 as int) * (b as int / Q64 as int)
            * Q64 + (a as int / Q64 as int) * (b as int % Q64 as int) + (a as int % Q64 as int) * (
        b as int / Q64 as int) + (a as int % Q64 as int) * (b as int % Q64 as int) / (Q64 as int),
        (a as int) * (b as int) % (Q64 as int) == (a as int % Q64 as int) * (b as int % Q64 as int)
            % (Q64 as int),
{
    let q = Q64 as int;
    let ah = a as int / q;
    let al = a as int % q;
    let bh = b as int / q;
    let bl = b as int % q;
    let ll = al * bl;
    lemma_fundamental_div_mod(a as int, q);
    lemma_fundamental_div_mod(b as int, q);
    lemma_fundamental_div_mod(ll, q);
    lemma_mod_bound(ll, q);
    assert((q * ah + al) * (q * bh + bl) == (q * ah) * (q * bh) + (q * ah) * bl + al * (q * bh) + al
        * bl) by (nonlinear_arith);
    assert((q * ah) * (q * bh) == q * q * (ah * bh)) by (nonlinear_arith);
    assert((q * ah) * bl == q * (ah * bl)) by (nonlinear_arith);
    assert(al * (q * bh) == q * (al * bh)) by (nonlinear_arith);
    assert((a as int) * (b as int) == (q * ah + al) * (q * bh + bl)) by (nonlinear_arith)
        requires
            a as int == q * ah + al,
            b as int == q * bh + bl,
    ;
    assert(q * q * (ah * bh) + q * (ah * bl) + q * (al * bh) + (q * (ll / q) + ll % q) == q * (ah
        * bh * q + ah * bl + al * bh + ll / q) + ll % q) by (nonlinear_arith);
    lemma_fundamental_div_mod_converse(
        (a as int) * (b as int),
        q,
        ah * bh * q + ah * bl + al * bh + ll / q,
        ll % q,
    );
}

/// Basic bounds on the half products, under the assumption that the whole
/// product stays below 2^190.
proof fn lemma_mul_shift_bounds(a: u128, b: u128)
    requires
        (a as int) * (b as int) < 0x4000_0000_0000_0000_0000_0000_0000_0000_0000_0000_0000_0000,
    ensures
        (a as int / Q64 as int) * (b as int / Q64 as int)
            < 0x4000_0000_0000_0000,  // 2^62, so the 2^64 shift fits
        (a as int / Q64 as int) * (b as int % Q64 as int) <= a as int,
        (a as int % Q64 as int) * (b as int / Q64 as int) <= b as int,
        (a as int % Q64 as int) * (b as int % Q64 as int) < (U128_MAX as int) + 1,
        (a as int) * (b as int) / (Q64 as int) < 0x4000_0000_0000_0000_0000_0000_0000_0000,  // 2^126
{
    let q = Q64 as int;
    let ah = a as int / q;
    let al = a as int % q;
    let bh = b as int / q;
    let bl = b as int % q;
    lemma_fundamental_div_mod(a as int, q);
    lemma_fundamental_div_mod(b as int, q);
    lemma_mod_bound(a as int, q);
    lemma_mod_bound(b as int, q);
    assert(ah * bl <= a as int) by (nonlinear_arith)
        requires
            a as int == q * ah + al,
            0 <= ah,
            0 <= al,
            0 <= bl < q,
    ;
    assert(al * bh <= b as int) by (nonlinear_arith)
        requires
            b as int == q * bh + bl,
            0 <= bh,
            0 <= bl,
            0 <= al < q,
    ;
    assert(al * bl < 0x1_0000_0000_0000_0000_0000_0000_0000_0000) by (nonlinear_arith)
        requires
            0 <= al < 0x1_0000_0000_0000_0000,
            0 <= bl < 0x1_0000_0000_0000_0000,
    ;
    assert((ah * bh) * 0x1_0000_0000_0000_0000_0000_0000_0000_0000 <= (a as int) * (
    b as int)) by (nonlinear_arith)
        requires
            a as int == q * ah + al,
            b as int == q * bh + bl,
            q == Q64 as int,
            0 <= ah,
            0 <= bh,
            0 <= al,
            0 <= bl,
    ;
    if ah * bh >= 0x4000_0000_0000_0000 {
        lemma_mul_inequality(
            0x4000_0000_0000_0000int,
            ah * bh,
            0x1_0000_0000_0000_0000_0000_0000_0000_0000int,
        );
        assert(0x4000_0000_0000_0000int * 0x1_0000_0000_0000_0000_0000_0000_0000_0000int
            == 0x4000_0000_0000_0000_0000_0000_0000_0000_0000_0000_0000_0000int)
            by (nonlinear_arith);
        assert(false);
    }
    assert((a as int) * (b as int) < q * 0x4000_0000_0000_0000_0000_0000_0000_0000int)
        by (nonlinear_arith)
        requires
            (a as int) * (b as int)
                < 0x4000_0000_0000_0000_0000_0000_0000_0000_0000_0000_0000_0000,
            q == 0x1_0000_0000_0000_0000,
    ;
    lemma_multiply_divide_lt(
        (a as int) * (b as int),
        q,
        0x4000_0000_0000_0000_0000_0000_0000_0000int,
    );
}

/// Exact `floor(a * b / 2^64)` for products below 2^190, computed with
/// 64-bit half products so no intermediate overflows.
pub fn mul_shift_right_64(a: u128, b: u128) -> (r: u128)
    requires
        (a as int) * (b as int) < 0x4000_0000_0000_0000_0000_0000_0000_0000_0000_0000_0000_0000,
    ensures
        r as int == (a as int) * (b as int) / (Q64 as int),
{
    proof {
        lemma_mul_shift_decompose(a, b);
        lemma_mul_shift_bounds(a, b);
    }
    let ah: u128 = a / Q64;
    let al: u128 = a % Q64;
    let bh: u128 = b / Q64;
    let bl: u128 = b % Q64;
    let hh: u128 = ah * bh;
    let hl: u128 = ah * bl;
    let lh: u128 = al * bh;
    let ll: u128 = al * bl;
    hh * Q64 + hl + lh + ll / Q64
}

/// Exact `floor(a * b / 2^64)` with checked overflow: `None` exactly when
/// the quotient does not fit in a `u128`.
pub fn mul_div_floor_q64(a: u128, b: u128) -> (r: Option<u128>)
    ensures
        match r {
            Some(v) => v as int == (a as int) * (b as int) / (Q64 as int),
            None => (a as int) * (b as int) / (Q64 as int) > U128_MAX as int,
        },
        r is Some <==> (a as int) * (b as int) / (Q64 as int) <= U128_MAX as int,
{
    proof {
        lemma_mul_shift_decompose(a, b);
    }
    let ah: u128 = a / Q64;
    let al: u128 = a % Q64;
    let bh: u128 = b / Q64;
    let bl: u128 = b % Q64;
    proof {
        let q = Q64 as int;
        assert((ah as int) * (bh as int) < q * q && (ah as int) * (bl as int) < q * q && (
        al as int) * (bh as int) < q * q && (al as int) * (bl as int) < q * q) by (nonlinear_arith)
            requires
                0 <= (ah as int) < q,
                0 <= (al as int) < q,
                0 <= (bh as int) < q,
                0 <= (bl as int) < q,
        ;
    }
    let hh: u128 = ah * bh;
    let hl: u128 = ah * bl;
    let lh: u128 = al * bh;
    let ll: u128 = al * bl;
    if hh >= Q64 {
        proof {
            assert(hh as int * (Q64 as int) >= (U128_MAX as int) + 1) by (nonlinear_arith)
                requires
                    hh as int >= Q64 as int,
            ;
        }
        return None;
    }
    let s1: u128 = hh * Q64;
    if hl > U128_MAX - s1 {
        return None;
    }
    let s2: u128 = s1 + hl;
    if lh > U128_MAX - s2 {
        return None;
    }
    let s3: u128 = s2 + lh;
    let s4: u128 = ll / Q64;
    if s4 > U128_MAX - s3 {
        return None;
    }
    Some(s3 + s4)
}

/// Exact `ceil(a * b / 2^64)` with checked overflow: `None` exactly when
/// the rounded-up quotient does not fit in a `u128`.
pub fn mul_div_ceil_q64(a: u128, b: u128) -> (r: Option<u128>)
    ensures
        match r {
            Some(v) => v as int == div_ceil((a as int) * (b as int), Q64 as int),
            None => div_ceil((a as int) * (b as int), Q64 as int) > U128_MAX as int,
        },
        r is Some <==> div_ceil((a as int) * (b as int), Q64 as int) <= U128_MAX as int,
{
    proof {
        lemma_mul_shift_decompose(a, b);
        lemma_div_ceil_split((a as int) * (b as int), Q64 as int);
        assert((a as int) * (b as int) >= 0) by (nonlinear_arith)
            requires
                a as int >= 0,
                b as int >= 0,
        ;
    }
    let floor = mul_div_floor_q64(a, b);
    let al: u128 = a % Q64;
    let bl: u128 = b % Q64;
    proof {
        let q = Q64 as int;
        assert((al as int) * (bl as int) < q * q) by (nonlinear_arith)
            requires
                0 <= (al as int) < q,
                0 <= (bl as int) < q,
        ;
    }
    let rem: u128 = (al * bl) % Q64;
    match floor {
        None => None,
        Some(v) => {
            if rem == 0 {
                Some(v)
            } else if v == U128_MAX {
                None
            } else {
                Some(v + 1)
            }
        },
    }
}

/// Ceiling division equals floor division plus one exactly when the
/// remainder is non-zero.
pub proof fn lemma_div_ceil_split(x: int, d: int)
    requires
        x >= 0,
        d > 0,
    ensures
        div_ceil(x, d) == x / d + if x % d == 0 {
            0int
        } else {
            1int
        },
{
    lemma_fundamental_div_mod(x, d);
    lemma_mod_bound(x, d);
    if x % d == 0 {
        assert(x + d - 1 == (x / d) * d + (d - 1)) by (nonlinear_arith)
            requires
                x == d * (x / d) + x % d,
                x % d == 0,
        ;
        lemma_fundamental_div_mod_converse(x + d - 1, d, x / d, d - 1);
    } else {
        assert(x + d - 1 == (x / d + 1) * d + ((x % d) - 1)) by (nonlinear_arith)
            requires
                x == d * (x / d) + x % d,
        ;
        lemma_fundamental_div_mod_converse(x + d - 1, d, x / d + 1, (x % d) - 1);
    }
}

} // verus!
