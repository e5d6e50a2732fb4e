//! Fixed-point sine and cosine.
//!
//! The camera needs the sine and cosine of its yaw and pitch to turn the
//! two angles into a look direction. Both are computed here over the
//! principal turn `[-PI_FX, PI_FX]`: the magnitude of the angle is folded
//! into the first quadrant, a truncated Taylor polynomial is evaluated in
//! fixed point, and the result is clamped into `[-SCALE, SCALE]` so that
//! callers always hold a representable direction component. At angle zero
//! the result is exact: sine `0`, cosine `SCALE`.

use crate::fixed::{
    clamp_s, clamp_i64, fx_div_by, fx_mul, iabs, lemma_product_div_fits, tdiv, HALF_PI_FX,
    PI_FX, SCALE,
};
use vstd::prelude::*;

verus! {

/// The truncated Taylor sine on the first quadrant, in fixed point:
/// `x - x^3/6 + x^5/120 - x^7/5040`, every product scaled back once.
pub open spec fn taylor_sin_s(x: int) -> int {
    let x2 = tdiv(x * x, SCALE as int);
    let x3 = tdiv(x2 * x, SCALE as int);
    let x4 = tdiv(x2 * x2, SCALE as int);
    let x5 = tdiv(x4 * x, SCALE as int);
    let x6 = tdiv(x4 * x2, SCALE as int);
    let x7 = tdiv(x6 * x, SCALE as int);
    x - tdiv(x3, 6) + tdiv(x5, 120) - tdiv(x7, 5040)
}

/// The truncated Taylor cosine on the first quadrant, in fixed point:
/// `1 - x^2/2 + x^4/24 - x^6/720`, every product scaled back once.
pub open spec fn taylor_cos_s(x: int) -> int {
    let x2 = tdiv(x * x, SCALE as int);
    let x4 = tdiv(x2 * x2, SCALE as int);
    let x6 = tdiv(x4 * x2, SCALE as int);
    SCALE - tdiv(x2, 2) + tdiv(x4, 24) - tdiv(x6, 720)
}

/// The crate's sine: quadrant folding, Taylor evaluation, clamping.
pub open spec fn sin_s(a: int) -> int {
    let x = iabs(a);
    let s = if x <= HALF_PI_FX {
        taylor_sin_s(x)
    } else {
        taylor_sin_s(PI_FX - x)
    };
    let sc = clamp_s(s, -SCALE as int, SCALE as int);
    if a < 0 {
        -sc
    } else {
        sc
    }
}

/// The crate's cosine: quadrant folding, Taylor evaluation, clamping.
pub open spec fn cos_s(a: int) -> int {
    let x = iabs(a);
    let c = if x <= HALF_PI_FX {
        taylor_cos_s(x)
    } else {
        -taylor_cos_s(PI_FX - x)
    };
    clamp_s(c, -SCALE as int, SCALE as int)
}

/// Both Taylor polynomials on the first quadrant.
fn taylor_pair(x: i64) -> (r: (i64, i64))
    requires
        0 <= x <= HALF_PI_FX,
    ensures
        r.0 == taylor_sin_s(x as int),
        r.1 == taylor_cos_s(x as int),
        iabs(r.0 as int) <= 0x400_0000,
        iabs(r.1 as int) <= 0x400_0000,
{
    let x2 = fx_mul(x, x);
    proof {
        lemma_product_div_fits(x as int, x as int, SCALE as int, HALF_PI_FX as int, HALF_PI_FX as int);
        assert((HALF_PI_FX as int * HALF_PI_FX as int) / (SCALE as int) <= 0x4_0000);
    }
    let x3 = fx_mul(x2, x);
    proof {
        lemma_product_div_fits(x2 as int, x as int, SCALE as int, 0x4_0000, HALF_PI_FX as int);
    }
    let x4 = fx_mul(x2, x2);
    proof {
        lemma_product_div_fits(x2 as int, x2 as int, SCALE as int, 0x4_0000, 0x4_0000);
        assert((0x4_0000int * 0x4_0000int) / (SCALE as int) <= 0x40_0000);
    }
    let x5 = fx_mul(x4, x);
    proof {
        lemma_product_div_fits(x4 as int, x as int, SCALE as int, 0x40_0000, HALF_PI_FX as int);
    }
    let x6 = fx_mul(x4, x2);
    proof {
        lemma_product_div_fits(x4 as int, x2 as int, SCALE as int, 0x40_0000, 0x4_0000);
    }
    let x7 = fx_mul(x6, x);
    proof {
        lemma_product_div_fits(x6 as int, x as int, SCALE as int, 0x100_0000, HALF_PI_FX as int);
    }
    let s = x - fx_div_by(x3, 6) + fx_div_by(x5, 120) - fx_div_by(x7, 5040);
    let c = SCALE - fx_div_by(x2, 2) + fx_div_by(x4, 24) - fx_div_by(x6, 720);
    (s, c)
}

/// The sine and cosine of an angle on the principal turn, and the two
/// exact values the camera's conventions rest on: at angle zero the pair
/// is `(0, SCALE)`, and at `PI_FX` and `-PI_FX` the sine is exactly zero.
pub fn sin_cos_fx(a: i64) -> (r: (i64, i64))
    requires
        -PI_FX <= a <= PI_FX,
    ensures
        r.0 == sin_s(a as int),
        r.1 == cos_s(a as int),
        -SCALE <= r.0 <= SCALE,
        -SCALE <= r.1 <= SCALE,
        a == 0 ==> r.0 == 0 && r.1 == SCALE,
        a == PI_FX || a == -PI_FX ==> r.0 == 0 && r.1 == -SCALE,
{
    let x = if a < 0 {
        -a
    } else {
        a
    };
    let (s0, c0) = if x <= HALF_PI_FX {
        taylor_pair(x)
    } else {
        let t = taylor_pair(PI_FX - x);
        (t.0, -t.1)
    };
    let sc = clamp_i64(s0, -SCALE, SCALE);
    let cc = clamp_i64(c0, -SCALE, SCALE);
    let sr = if a < 0 {
        -sc
    } else {
        sc
    };
    (sr, cc)
}

} // verus!
