//! Fixed-point sine and cosine of angles given in degrees.
//!
//! The angle is reduced modulo 360 degrees, folded into the first
//! half-quadrant, converted to radians and fed to a truncated Taylor
//! polynomial.  Every step rounds toward zero and is mirrored exactly by
//! a spec function, so two equal angles always yield equal results and
//! an angle of zero yields exactly sine 0 and cosine 1.

use crate::fx::{FX_SCALE, Fx};
use vstd::arithmetic::div_mod::lemma_div_is_ordered;
use vstd::arithmetic::mul::lemma_mul_upper_bound;
use vstd::math::abs;
use vstd::prelude::*;

verus! {

/// 360 degrees in raw fixed-point units.
pub const TRIG_D360: u64 = 1546188226560;

/// 90 degrees in raw fixed-point units.
pub const TRIG_D90: u64 = 386547056640;

/// 45 degrees in raw fixed-point units.
pub const TRIG_D45: u64 = 193273528320;

/// One degree in radians, in raw fixed-point units.
pub const TRIG_DEG2RAD: u64 = 74961321;

/// Largest radian argument handed to the polynomials (45 degrees).
pub const TRIG_X_MAX: u64 = 3373259445;

/// Largest scaled square of a polynomial argument.
pub const TRIG_X2_MAX: u64 = 2700000000;

/// 1/6 in raw fixed-point units.
pub const TRIG_C3: u64 = 715827883;

/// 1/120 in raw fixed-point units.
pub const TRIG_C5: u64 = 35791394;

/// 1/5040 in raw fixed-point units.
pub const TRIG_C7: u64 = 852176;

/// 1/362880 in raw fixed-point units.
pub const TRIG_C9: u64 = 11836;

/// 1/2 in raw fixed-point units.
pub const TRIG_D2: u64 = 2147483648;

/// 1/24 in raw fixed-point units.
pub const TRIG_D4: u64 = 178956971;

/// 1/720 in raw fixed-point units.
pub const TRIG_D6: u64 = 5965232;

/// 1/40320 in raw fixed-point units.
pub const TRIG_D8: u64 = 106522;

/// Product of two nonnegative raw values, scaled back down.
pub open spec fn scaled_prod(a: int, b: int) -> int {
    (a * b) / FX_SCALE as int
}

/// Degrees to radians, in raw units.
pub open spec fn rad_of_deg(r: int) -> int {
    scaled_prod(r, TRIG_DEG2RAD as int)
}

/// Taylor polynomial for sine on the first half-quadrant.
pub open spec fn poly_sin(x: int) -> int {
    let x2 = scaled_prod(x, x);
    let t4 = TRIG_C7 - scaled_prod(x2, TRIG_C9 as int);
    let t3 = TRIG_C5 - scaled_prod(x2, t4);
    let t2 = TRIG_C3 - scaled_prod(x2, t3);
    let t1 = FX_SCALE - scaled_prod(x2, t2);
    scaled_prod(x, t1)
}

/// Taylor polynomial for cosine on the first half-quadrant.
pub open spec fn poly_cos(x: int) -> int {
    let x2 = scaled_prod(x, x);
    let u3 = TRIG_D6 - scaled_prod(x2, TRIG_D8 as int);
    let u2 = TRIG_D4 - scaled_prod(x2, u3);
    let u1 = TRIG_D2 - scaled_prod(x2, u2);
    FX_SCALE - scaled_prod(x2, u1)
}

/// The angle reduced to [0, 360) degrees.
pub open spec fn norm_deg(d: int) -> int {
    if d >= 0 {
        d % TRIG_D360 as int
    } else if (-d) % TRIG_D360 as int == 0 {
        0
    } else {
        TRIG_D360 - (-d) % TRIG_D360 as int
    }
}

/// Sine of the reduced angle within one quadrant.
pub open spec fn sin_base(r: int) -> int {
    if r > TRIG_D45 {
        poly_cos(rad_of_deg(TRIG_D90 - r))
    } else {
        poly_sin(rad_of_deg(r))
    }
}

/// Cosine of the reduced angle within one quadrant.
pub open spec fn cos_base(r: int) -> int {
    if r > TRIG_D45 {
        poly_sin(rad_of_deg(TRIG_D90 - r))
    } else {
        poly_cos(rad_of_deg(r))
    }
}

/// Raw value of the fixed-point sine of `d` degrees.
pub open spec fn sin_fx_raw(d: int) -> int {
    let m = norm_deg(d);
    let q = m / TRIG_D90 as int;
    let r = m % TRIG_D90 as int;
    if q == 0 {
        sin_base(r)
    } else if q == 1 {
        cos_base(r)
    } else if q == 2 {
        -sin_base(r)
    } else {
        -cos_base(r)
    }
}

/// Raw value of the fixed-point cosine of `d` degrees.
pub open spec fn cos_fx_raw(d: int) -> int {
    let m = norm_deg(d);
    let q = m / TRIG_D90 as int;
    let r = m % TRIG_D90 as int;
    if q == 0 {
        cos_base(r)
    } else if q == 1 {
        -sin_base(r)
    } else if q == 2 {
        -cos_base(r)
    } else {
        sin_base(r)
    }
}

/// A scaled product of bounded nonnegative values is bounded by the
/// scaled product of the bounds.
proof fn lemma_scaled_prod_bound(a: int, b: int, ba: int, bb: int)
    requires
        0 <= a <= ba,
        0 <= b <= bb,
    ensures
        0 <= scaled_prod(a, b) <= (ba * bb) / FX_SCALE as int,
{
    lemma_mul_upper_bound(a, ba, b, bb);
    lemma_div_is_ordered(a * b, ba * bb, FX_SCALE as int);
    lemma_div_is_ordered(0, a * b, FX_SCALE as int);
}

/// Scaled product of two nonnegative raw values.
fn scaled_prod_exec(a: u64, b: u64) -> (r: u64)
    requires
        a <= 17179869184,
        b <= 17179869184,
    ensures
        r as int == scaled_prod(a as int, b as int),
{
    proof {
        lemma_scaled_prod_bound(a as int, b as int, 17179869184, 17179869184);
    }
    let p: u128 = (a as u128) * (b as u128);
    (p / 4294967296u128) as u64
}

/// Degrees to radians for a folded angle.
fn rad_of_deg_exec(r: u64) -> (x: u64)
    requires
        r <= TRIG_D45,
    ensures
        x as int == rad_of_deg(r as int),
        x <= TRIG_X_MAX,
{
    proof {
        lemma_scaled_prod_bound(r as int, TRIG_DEG2RAD as int, TRIG_D45 as int,
            TRIG_DEG2RAD as int);
    }
    let p: u128 = (r as u128) * (TRIG_DEG2RAD as u128);
    (p / 4294967296u128) as u64
}

/// Taylor sine on the first half-quadrant.
fn poly_sin_exec(x: u64) -> (s: u64)
    requires
        x <= TRIG_X_MAX,
    ensures
        s as int == poly_sin(x as int),
        s <= x,
{
    proof {
        lemma_scaled_prod_bound(x as int, x as int, TRIG_X_MAX as int, TRIG_X_MAX as int);
    }
    let x2: u64 = scaled_prod_exec(x, x);
    proof {
        lemma_scaled_prod_bound(x2 as int, TRIG_C9 as int, TRIG_X2_MAX as int, TRIG_C9 as int);
    }
    let t4: u64 = TRIG_C7 - scaled_prod_exec(x2, TRIG_C9);
    proof {
        lemma_scaled_prod_bound(x2 as int, t4 as int, TRIG_X2_MAX as int, TRIG_C7 as int);
    }
    let t3: u64 = TRIG_C5 - scaled_prod_exec(x2, t4);
    proof {
        lemma_scaled_prod_bound(x2 as int, t3 as int, TRIG_X2_MAX as int, TRIG_C5 as int);
    }
    let t2: u64 = TRIG_C3 - scaled_prod_exec(x2, t3);
    proof {
        lemma_scaled_prod_bound(x2 as int, t2 as int, TRIG_X2_MAX as int, TRIG_C3 as int);
    }
    let t1: u64 = FX_SCALE as u64 - scaled_prod_exec(x2, t2);
    proof {
        lemma_scaled_prod_bound(x as int, t1 as int, x as int, FX_SCALE as int);
        vstd::arithmetic::div_mod::lemma_div_multiples_vanish(x as int, FX_SCALE as int);
        vstd::arithmetic::mul::lemma_mul_is_commutative(x as int, FX_SCALE as int);
    }
    scaled_prod_exec(x, t1)
}

/// Taylor cosine on the first half-quadrant.
fn poly_cos_exec(x: u64) -> (c: u64)
    requires
        x <= TRIG_X_MAX,
    ensures
        c as int == poly_cos(x as int),
        c <= FX_SCALE,
{
    proof {
        lemma_scaled_prod_bound(x as int, x as int, TRIG_X_MAX as int, TRIG_X_MAX as int);
    }
    let x2: u64 = scaled_prod_exec(x, x);
    proof {
        lemma_scaled_prod_bound(x2 as int, TRIG_D8 as int, TRIG_X2_MAX as int, TRIG_D8 as int);
    }
    let u3: u64 = TRIG_D6 - scaled_prod_exec(x2, TRIG_D8);
    proof {
        lemma_scaled_prod_bound(x2 as int, u3 as int, TRIG_X2_MAX as int, TRIG_D6 as int);
    }
    let u2: u64 = TRIG_D4 - scaled_prod_exec(x2, u3);
    proof {
        lemma_scaled_prod_bound(x2 as int, u2 as int, TRIG_X2_MAX as int, TRIG_D4 as int);
    }
    let u1: u64 = TRIG_D2 - scaled_prod_exec(x2, u2);
    proof {
        lemma_scaled_prod_bound(x2 as int, u1 as int, TRIG_X2_MAX as int, TRIG_D2 as int);
    }
    FX_SCALE as u64 - scaled_prod_exec(x2, u1)
}

/// Fixed-point sine and cosine of an angle in degrees.
pub fn fx_sin_cos(d: Fx) -> (sc: (Fx, Fx))
    ensures
        sc.0.raw as int == sin_fx_raw(d.raw as int),
        sc.1.raw as int == cos_fx_raw(d.raw as int),
        abs(sc.0.raw as int) <= FX_SCALE,
        abs(sc.1.raw as int) <= FX_SCALE,
{
    let mag: u64 = if d.raw < 0 {
        (-(d.raw as i128)) as u64
    } else {
        d.raw as u64
    };
    let mu: u64 = mag % TRIG_D360;
    let m: u64 = if d.raw < 0 && mu > 0 {
        TRIG_D360 - mu
    } else {
        mu
    };
    proof {
        assert(mag as int == abs(d.raw as int));
        assert(m as int == norm_deg(d.raw as int));
    }
    let q: u64 = m / TRIG_D90;
    let r: u64 = m % TRIG_D90;
    let (bs, bc): (u64, u64) = if r > TRIG_D45 {
        let x = rad_of_deg_exec(TRIG_D90 - r);
        (poly_cos_exec(x), poly_sin_exec(x))
    } else {
        let x = rad_of_deg_exec(r);
        (poly_sin_exec(x), poly_cos_exec(x))
    };
    proof {
        assert(bs as int == sin_base(r as int));
        assert(bc as int == cos_base(r as int));
        assert(q < 4);
    }
    if q == 0 {
        (Fx { raw: bs as i64 }, Fx { raw: bc as i64 })
    } else if q == 1 {
        (Fx { raw: bc as i64 }, Fx { raw: -(bs as i64) })
    } else if q == 2 {
        (Fx { raw: -(bs as i64) }, Fx { raw: -(bc as i64) })
    } else {
        (Fx { raw: -(bc as i64) }, Fx { raw: bs as i64 })
    }
}

} // verus!
