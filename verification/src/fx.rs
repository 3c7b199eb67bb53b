//! Fixed-point scalars.
//!
//! A scalar is stored as a signed 64-bit count of units of `2^-32`; the
//! represented value is `raw / FX_SCALE`.  Products and quotients round
//! toward zero, and the spec functions below state the result of each
//! operation exactly, so callers can reason about every rounded digit.

use vstd::arithmetic::div_mod::lemma_div_is_ordered;
use vstd::arithmetic::mul::lemma_mul_upper_bound;
use vstd::math::abs;
use vstd::prelude::*;

verus! {

/// Number of raw units per represented unit (2^32).
pub const FX_SCALE: i64 = 4294967296;

/// Largest raw magnitude accepted by `fx_mul` and `fx_div` (2^47).
pub const FX_MUL_LIMIT: i64 = 140737488355328;

/// A fixed-point scalar with value `raw / FX_SCALE`.
#[derive(Clone, Copy, Debug, PartialEq, Eq, Structural)]
pub struct Fx {
    pub raw: i64,
}

impl Fx {
    /// The scalar 0.
    pub fn zero() -> (r: Fx)
        ensures
            r.raw == 0,
    {
        Fx { raw: 0 }
    }

    /// The scalar 1.
    pub fn one() -> (r: Fx)
        ensures
            r.raw == FX_SCALE,
    {
        Fx { raw: FX_SCALE }
    }

    /// The scalar with the given raw representation.
    pub fn from_raw(raw: i64) -> (r: Fx)
        ensures
            r.raw == raw,
    {
        Fx { raw }
    }

    /// The integer `v` as a fixed-point scalar.
    pub fn from_int(v: i64) -> (r: Fx)
        requires
            -2097152 <= v <= 2097152,
        ensures
            r.raw == v * FX_SCALE,
    {
        Fx { raw: v * FX_SCALE }
    }
}

/// Exact raw value of a fixed-point product: the magnitudes are
/// multiplied, scaled down, and the quotient rounds toward zero.
pub open spec fn fx_mul_raw(a: int, b: int) -> int {
    if (a >= 0) == (b >= 0) {
        (abs(a) * abs(b)) as int / FX_SCALE as int
    } else {
        -((abs(a) * abs(b)) as int / FX_SCALE as int)
    }
}

/// Exact raw value of a fixed-point quotient, rounding toward zero.
pub open spec fn fx_div_raw(a: int, b: int) -> int {
    if (a >= 0) == (b >= 0) {
        (abs(a) * FX_SCALE as int) / abs(b) as int
    } else {
        -((abs(a) * FX_SCALE as int) / abs(b) as int)
    }
}

/// Exact raw value of halving, rounding toward zero.
pub open spec fn fx_half_raw(a: int) -> int {
    if a >= 0 {
        a / 2
    } else {
        -((-a) / 2)
    }
}

/// The magnitude of a rounded product is at most the scaled product of
/// magnitude bounds on its operands.
pub proof fn lemma_fx_mul_raw_bound(a: int, b: int, ba: int, bb: int)
    requires
        abs(a) <= ba,
        abs(b) <= bb,
    ensures
        abs(fx_mul_raw(a, b)) <= (ba * bb) / FX_SCALE as int,
        0 <= (ba * bb) / FX_SCALE as int,
{
    lemma_mul_upper_bound(abs(a) as int, ba, abs(b) as int, bb);
    lemma_div_is_ordered((abs(a) * abs(b)) as int, ba * bb, FX_SCALE as int);
    lemma_div_is_ordered(0, ba * bb, FX_SCALE as int);
}

/// Fixed-point addition; exact.
pub fn fx_add(a: Fx, b: Fx) -> (r: Fx)
    requires
        i64::MIN <= a.raw + b.raw <= i64::MAX,
    ensures
        r.raw == a.raw + b.raw,
{
    Fx { raw: a.raw + b.raw }
}

/// Fixed-point subtraction; exact.
pub fn fx_sub(a: Fx, b: Fx) -> (r: Fx)
    requires
        i64::MIN <= a.raw - b.raw <= i64::MAX,
    ensures
        r.raw == a.raw - b.raw,
{
    Fx { raw: a.raw - b.raw }
}

/// Fixed-point negation; exact.
pub fn fx_neg(a: Fx) -> (r: Fx)
    requires
        a.raw != i64::MIN,
    ensures
        r.raw == -a.raw,
{
    Fx { raw: -a.raw }
}

/// Fixed-point multiplication, rounding toward zero.
pub fn fx_mul(a: Fx, b: Fx) -> (r: Fx)
    requires
        abs(a.raw as int) <= FX_MUL_LIMIT,
        abs(b.raw as int) <= FX_MUL_LIMIT,
    ensures
        r.raw as int == fx_mul_raw(a.raw as int, b.raw as int),
        abs(r.raw as int) == (abs(a.raw as int) * abs(b.raw as int)) as int / FX_SCALE as int,
{
    let neg: bool = (a.raw < 0) != (b.raw < 0);
    let ua: u128 = if a.raw < 0 {
        (-(a.raw as i128)) as u128
    } else {
        a.raw as u128
    };
    let ub: u128 = if b.raw < 0 {
        (-(b.raw as i128)) as u128
    } else {
        b.raw as u128
    };
    proof {
        assert(ua == abs(a.raw as int));
        assert(ub == abs(b.raw as int));
        lemma_mul_upper_bound(ua as int, FX_MUL_LIMIT as int, ub as int, FX_MUL_LIMIT as int);
        lemma_div_is_ordered((ua * ub) as int, FX_MUL_LIMIT as int * FX_MUL_LIMIT as int,
            FX_SCALE as int);
    }
    let q: u128 = (ua * ub) / 4294967296u128;
    if neg {
        Fx { raw: -(q as i64) }
    } else {
        Fx { raw: q as i64 }
    }
}

/// Fixed-point division, rounding toward zero.
pub fn fx_div(a: Fx, b: Fx) -> (r: Fx)
    requires
        b.raw != 0,
        abs(a.raw as int) <= FX_MUL_LIMIT,
        (abs(a.raw as int) * FX_SCALE as int) / abs(b.raw as int) as int <= i64::MAX,
    ensures
        r.raw as int == fx_div_raw(a.raw as int, b.raw as int),
        abs(r.raw as int) == (abs(a.raw as int) * FX_SCALE as int) / abs(b.raw as int) as int,
{
    let neg: bool = (a.raw < 0) != (b.raw < 0);
    let ua: u128 = if a.raw < 0 {
        (-(a.raw as i128)) as u128
    } else {
        a.raw as u128
    };
    let ub: u128 = if b.raw < 0 {
        (-(b.raw as i128)) as u128
    } else {
        b.raw as u128
    };
    proof {
        assert(ua == abs(a.raw as int));
        assert(ub == abs(b.raw as int));
    }
    let q: u128 = (ua * 4294967296u128) / ub;
    if neg {
        Fx { raw: -(q as i64) }
    } else {
        Fx { raw: q as i64 }
    }
}

/// Fixed-point halving, rounding toward zero.
pub fn fx_half(a: Fx) -> (r: Fx)
    ensures
        r.raw as int == fx_half_raw(a.raw as int),
{
    let ua: u128 = if a.raw < 0 {
        (-(a.raw as i128)) as u128
    } else {
        a.raw as u128
    };
    let q: u128 = ua / 2;
    if a.raw < 0 && q > 0 {
        Fx { raw: -(q as i64) }
    } else {
        Fx { raw: q as i64 }
    }
}

} // verus!
