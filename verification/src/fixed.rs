//! Fixed-point scalars.
//!
//! Every continuous quantity of the simulation — movement intent, forces,
//! velocities, world coordinates, interpolation fractions — is a signed
//! 64-bit count of micro-units: `SCALE` micro-units make one world unit.
//! All arithmetic on them is exact integer arithmetic, so each contract in
//! this crate pins its result down to the last micro-unit.

use vstd::prelude::*;

verus! {

use vstd::arithmetic::div_mod::{lemma_div_is_ordered, lemma_div_multiples_vanish};
use vstd::arithmetic::mul::lemma_mul_upper_bound;

/// Number of micro-units in one world unit.
pub const SCALE: i64 = 1_000_000;

/// Largest magnitude a fixed-point factor may have: three million world
/// units. Keeping both factors of a product within this limit keeps the
/// scaled product within `i64`.
pub const FX_LIM: i64 = 3_000_000_000_000;

/// Mathematical value of a product of two fixed-point scalars, scaled back
/// to micro-units. The quotient is truncated toward zero, the direction the
/// executable division rounds.
pub open spec fn scaled(a: int, b: int) -> int {
    if a * b >= 0 {
        (a * b) / (SCALE as int)
    } else {
        -((-(a * b)) / (SCALE as int))
    }
}

/// Truncating product of two fixed-point scalars.
pub fn fx_mul(a: i64, b: i64) -> (r: i64)
    requires
        -FX_LIM <= a <= FX_LIM,
        -FX_LIM <= b <= FX_LIM,
    ensures
        r == scaled(a as int, b as int),
{
    proof {
        lemma_scaled_in_i64(a as int, b as int);
    }
    let p: i128 = (a as i128) * (b as i128);
    if p >= 0 {
        let q: i128 = p / (SCALE as i128);
        proof {
            lemma_div_is_ordered(p as int, 9_000_000_000_000_000_000_000_000int, SCALE as int);
        }
        q as i64
    } else {
        let q: i128 = (-p) / (SCALE as i128);
        proof {
            lemma_div_is_ordered(-p as int, 9_000_000_000_000_000_000_000_000int, SCALE as int);
        }
        -(q as i64)
    }
}

/// A scaled product of factors within `FX_LIM` fits in `i64`.
proof fn lemma_scaled_in_i64(a: int, b: int)
    requires
        -FX_LIM <= a <= FX_LIM,
        -FX_LIM <= b <= FX_LIM,
    ensures
        -9_000_000_000_000_000_000_000_000 <= a * b <= 9_000_000_000_000_000_000_000_000,
        -(i64::MAX as int) <= scaled(a, b) <= i64::MAX as int,
{
    assert(a * b <= 9_000_000_000_000_000_000_000_000 && -(a * b)
        <= 9_000_000_000_000_000_000_000_000) by (nonlinear_arith)
        requires
            -FX_LIM <= a <= FX_LIM,
            -FX_LIM <= b <= FX_LIM,
    ;
    if a * b >= 0 {
        lemma_div_is_ordered(a * b, 9_000_000_000_000_000_000_000_000int, SCALE as int);
        vstd::arithmetic::div_mod::lemma_div_pos_is_pos(a * b, SCALE as int);
    } else {
        lemma_div_is_ordered(-(a * b), 9_000_000_000_000_000_000_000_000int, SCALE as int);
        vstd::arithmetic::div_mod::lemma_div_pos_is_pos(-(a * b), SCALE as int);
    }
}

/// Multiplying by the fixed-point one is exact.
pub proof fn lemma_scaled_one(v: int)
    ensures
        scaled(SCALE as int, v) == v,
        scaled(v, SCALE as int) == v,
{
    if v >= 0 {
        lemma_div_multiples_vanish(v, SCALE as int);
    } else {
        lemma_div_multiples_vanish(-v, SCALE as int);
    }
    assert(SCALE as int * v == v * SCALE as int);
}

/// Bound on a scaled product from bounds on its factors.
pub proof fn lemma_scaled_bound(a: int, b: int, abound: int, bbound: int)
    requires
        -abound <= a <= abound,
        -bbound <= b <= bbound,
        0 <= abound,
        0 <= bbound,
    ensures
        -(abound * bbound / (SCALE as int)) <= scaled(a, b) <= abound * bbound / (SCALE as int),
{
    assert(-(abound * bbound) <= a * b <= abound * bbound) by (nonlinear_arith)
        requires
            -abound <= a <= abound,
            -bbound <= b <= bbound,
            0 <= abound,
            0 <= bbound,
    ;
    if a * b >= 0 {
        lemma_div_is_ordered(a * b, abound * bbound, SCALE as int);
        vstd::arithmetic::div_mod::lemma_div_pos_is_pos(a * b, SCALE as int);
        vstd::arithmetic::div_mod::lemma_div_pos_is_pos(abound * bbound, SCALE as int);
    } else {
        lemma_div_is_ordered(-(a * b), abound * bbound, SCALE as int);
        vstd::arithmetic::div_mod::lemma_div_pos_is_pos(-(a * b), SCALE as int);
        vstd::arithmetic::div_mod::lemma_div_pos_is_pos(abound * bbound, SCALE as int);
    }
}

/// A factor no larger than one in magnitude cannot grow the other factor.
pub proof fn lemma_scaled_contract(c: int, v: int, bound: int)
    requires
        -(SCALE as int) <= c <= SCALE as int,
        -bound <= v <= bound,
        0 <= bound,
    ensures
        -bound <= scaled(c, v) <= bound,
{
    assert(c * v <= SCALE as int * bound && -(c * v) <= SCALE as int * bound)
        by (nonlinear_arith)
        requires
            -(SCALE as int) <= c <= SCALE as int,
            -bound <= v <= bound,
            0 <= bound,
    ;
    lemma_div_multiples_vanish(bound, SCALE as int);
    if c * v >= 0 {
        lemma_div_is_ordered(c * v, SCALE as int * bound, SCALE as int);
        vstd::arithmetic::div_mod::lemma_div_pos_is_pos(c * v, SCALE as int);
    } else {
        lemma_div_is_ordered(-(c * v), SCALE as int * bound, SCALE as int);
        vstd::arithmetic::div_mod::lemma_div_pos_is_pos(-(c * v), SCALE as int);
    }
}

} // verus!
