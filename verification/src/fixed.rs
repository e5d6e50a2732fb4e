//! Fixed-point scalar arithmetic.
//!
//! Every real-valued quantity of the camera (world coordinates, angles in
//! radians, seconds, matrix entries) is stored as an `i64` carrying 16
//! fractional bits: the stored integer is the real value times [`SCALE`].
//! Products are divided back by [`SCALE`] with truncated (round-toward-zero)
//! division, the single rounding convention of the whole crate.

use vstd::arithmetic::div_mod::{
    lemma_div_is_ordered, lemma_div_nonincreasing, lemma_div_pos_is_pos,
    lemma_fundamental_div_mod, lemma_mod_add_multiples_vanish,
    lemma_mod_division_less_than_divisor, lemma_small_mod,
};
use vstd::prelude::*;

verus! {

/// The fixed-point unit: stored integers are real values times this.
pub const SCALE: i64 = 65536;

/// pi in fixed-point units, rounded toward zero.
pub const PI_FX: i64 = 205887;

/// pi/2 in fixed-point units, rounded toward zero.
pub const HALF_PI_FX: i64 = 102943;

/// One full turn (2*pi); the period yaw is reduced to.
pub const TWO_PI_FX: i64 = 411774;

/// Margin (about 0.1 rad) kept between the stored pitch and +-pi/2,
/// so the look direction never reaches the gimbal singularity.
pub const PITCH_MARGIN_FX: i64 = 6554;

/// Largest magnitude the stored pitch can take: pi/2 minus the margin.
pub const PITCH_LIMIT_FX: i64 = HALF_PI_FX - PITCH_MARGIN_FX;

/// Magnitude of an int.
pub open spec fn iabs(a: int) -> int {
    if a < 0 {
        -a
    } else {
        a
    }
}

/// Truncated (round-toward-zero) division: the rounding every fixed-point
/// operation of this crate uses, matching Rust's `/` on integers.
/// Unspecified when `b == 0`.
pub open spec fn tdiv(a: int, b: int) -> int {
    if a == 0 {
        0
    } else if a > 0 && b > 0 {
        a / b
    } else if a < 0 && b < 0 {
        (a * -1) / (b * -1)
    } else if a < 0 {
        ((a * -1) / b) * -1
    } else {
        (a / (b * -1)) * -1
    }
}

/// The fixed-point product: real-value multiplication, truncated.
pub open spec fn fx_mul_s(a: int, b: int) -> int {
    tdiv(a * b, SCALE as int)
}

/// `x` forced into `[lo, hi]`.
pub open spec fn clamp_s(x: int, lo: int, hi: int) -> int {
    if x < lo {
        lo
    } else if x > hi {
        hi
    } else {
        x
    }
}

/// Truncated division never grows the magnitude of the dividend, and its
/// magnitude is exactly the Euclidean quotient of the magnitudes.
pub proof fn lemma_tdiv_magnitude(a: int, b: int)
    requires
        b != 0,
    ensures
        iabs(tdiv(a, b)) == iabs(a) / iabs(b),
        iabs(tdiv(a, b)) <= iabs(a),
        a >= 0 && b > 0 ==> tdiv(a, b) >= 0,
        a <= 0 && b > 0 ==> tdiv(a, b) <= 0,
{
    if a == 0 {
        assert(iabs(a) / iabs(b) == 0) by {
            lemma_small_mod(0, iabs(b) as nat);
            assert(0int / iabs(b) == 0) by {
                lemma_div_pos_is_pos(0, iabs(b));
                lemma_div_nonincreasing(0, iabs(b));
            }
        }
    } else if a > 0 && b > 0 {
        lemma_div_pos_is_pos(a, b);
        lemma_div_nonincreasing(a, b);
    } else if a < 0 && b < 0 {
        lemma_div_pos_is_pos(-a, -b);
        lemma_div_nonincreasing(-a, -b);
    } else if a < 0 {
        lemma_div_pos_is_pos(-a, b);
        lemma_div_nonincreasing(-a, b);
    } else {
        lemma_div_pos_is_pos(a, -b);
        lemma_div_nonincreasing(a, -b);
    }
}

/// Bounds on the operands of a truncated division carry over to the result.
pub proof fn lemma_tdiv_product_bound(a: int, b: int, d: int, bound_a: int, bound_b: int)
    requires
        iabs(a) <= bound_a,
        iabs(b) <= bound_b,
        d >= 1,
    ensures
        iabs(tdiv(a * b, d)) <= tdiv(bound_a * bound_b, d),
        tdiv(bound_a * bound_b, d) == bound_a * bound_b / d,
{
    lemma_tdiv_magnitude(a * b, d);
    assert(iabs(a * b) == iabs(a) * iabs(b)) by (nonlinear_arith);
    assert(iabs(a) * iabs(b) <= bound_a * bound_b) by (nonlinear_arith)
        requires
            0 <= iabs(a) <= bound_a,
            0 <= iabs(b) <= bound_b,
    ;
    lemma_div_is_ordered(iabs(a) * iabs(b), bound_a * bound_b, d);
    if bound_a * bound_b == 0 {
        lemma_div_pos_is_pos(0, d);
        lemma_div_nonincreasing(0, d);
    } else {
        lemma_div_pos_is_pos(bound_a * bound_b, d);
    }
}

/// Splits a dividend into quotient times divisor plus a remainder whose
/// magnitude stays below the divisor and whose sign matches the dividend's.
pub proof fn lemma_tdiv_decompose(x: int, d: int)
    requires
        d >= 1,
    ensures
        x == tdiv(x, d) * d + (x - tdiv(x, d) * d),
        iabs(x - tdiv(x, d) * d) < d,
        x * (x - tdiv(x, d) * d) >= 0,
{
    let q = tdiv(x, d);
    let e = x - q * d;
    if x == 0 {
    } else if x > 0 {
        lemma_fundamental_div_mod(x, d);
        lemma_mod_division_less_than_divisor(x, d);
        assert(x == d * (x / d) + x % d);
        assert(q == x / d);
        assert(e == x % d) by (nonlinear_arith)
            requires
                x == d * (x / d) + x % d,
                q == x / d,
                e == x - q * d,
        ;
        assert(x * e >= 0) by (nonlinear_arith)
            requires
                x > 0,
                e >= 0,
        ;
    } else {
        let y = -x;
        lemma_fundamental_div_mod(y, d);
        lemma_mod_division_less_than_divisor(y, d);
        lemma_div_pos_is_pos(y, d);
        assert(y == d * (y / d) + y % d);
        assert(q == (y / d) * -1);
        assert(e == -(y % d)) by (nonlinear_arith)
            requires
                y == d * (y / d) + y % d,
                q == (y / d) * -1,
                e == x - q * d,
                y == -x,
        ;
        assert(x * e >= 0) by (nonlinear_arith)
            requires
                x < 0,
                e <= 0,
        ;
    }
}

/// Bounds the quotient of a product by bounds on the two factors; used to
/// discharge the quotient-fits condition of [`fx_mul_div`].
pub proof fn lemma_product_div_fits(a: int, b: int, d: int, bound_a: int, bound_b: int)
    requires
        iabs(a) <= bound_a,
        iabs(b) <= bound_b,
        d >= 1,
    ensures
        iabs(a * b) / d <= (bound_a * bound_b) / d,
{
    assert(iabs(a * b) == iabs(a) * iabs(b)) by (nonlinear_arith);
    assert(iabs(a) * iabs(b) <= bound_a * bound_b) by (nonlinear_arith)
        requires
            0 <= iabs(a) <= bound_a,
            0 <= iabs(b) <= bound_b,
    ;
    lemma_div_is_ordered(iabs(a * b), bound_a * bound_b, d);
}

/// `(a * b) / d` with one widening multiply and truncated division.
pub fn fx_mul_div(a: i64, b: i64, d: i64) -> (r: i64)
    requires
        1 <= d,
        iabs(a as int * b as int) / (d as int) <= 0x7fff_ffff_ffff_ffff,
    ensures
        r as int == tdiv(a as int * b as int, d as int),
        iabs(r as int) == iabs(a as int * b as int) / (d as int),
{
    proof {
        assert(iabs(a as int * b as int) <= 0x4000_0000_0000_0000_0000_0000_0000_0000)
            by (nonlinear_arith)
            requires
                iabs(a as int) <= 0x8000_0000_0000_0000,
                iabs(b as int) <= 0x8000_0000_0000_0000,
        ;
        lemma_tdiv_magnitude(a as int * b as int, d as int);
    }
    let p: i128 = (a as i128) * (b as i128);
    let q: i128 = p.checked_div(d as i128).unwrap();
    q as i64
}

/// Truncated division of a scalar by a positive divisor.
pub fn fx_div_by(a: i64, d: i64) -> (r: i64)
    requires
        1 <= d,
        iabs(a as int) <= 0x7fff_ffff_ffff_ffff,
    ensures
        r as int == tdiv(a as int, d as int),
        iabs(r as int) <= iabs(a as int),
{
    proof {
        lemma_div_nonincreasing(iabs(a as int), d as int);
        lemma_tdiv_magnitude(a as int, d as int);
    }
    fx_mul_div(a, 1, d)
}

/// The fixed-point product of two scalars.
pub fn fx_mul(a: i64, b: i64) -> (r: i64)
    requires
        iabs(a as int) <= 0x80_0000_0000,
        iabs(b as int) <= 0x80_0000_0000,
    ensures
        r as int == fx_mul_s(a as int, b as int),
        iabs(r as int) == iabs(a as int * b as int) / (SCALE as int),
{
    proof {
        lemma_product_div_fits(
            a as int,
            b as int,
            SCALE as int,
            0x80_0000_0000,
            0x80_0000_0000,
        );
        assert((0x80_0000_0000int * 0x80_0000_0000int) / (SCALE as int)
            <= 0x7fff_ffff_ffff_ffff);
    }
    fx_mul_div(a, b, SCALE)
}

/// `x` forced into `[lo, hi]`.
pub fn clamp_i64(x: i64, lo: i64, hi: i64) -> (r: i64)
    requires
        lo <= hi,
    ensures
        r as int == clamp_s(x as int, lo as int, hi as int),
        lo <= r <= hi,
{
    if x < lo {
        lo
    } else if x > hi {
        hi
    } else {
        x
    }
}

/// An angle reduced to the principal turn.
pub open spec fn wrap_s(a: int) -> int {
    let r = a % (TWO_PI_FX as int);
    if r > PI_FX {
        r - TWO_PI_FX
    } else {
        r
    }
}

/// Reduces an angle to `(-PI_FX, PI_FX]`; angles already inside the open
/// interval `(-PI_FX, PI_FX]` come back unchanged.
pub fn wrap_angle(a: i64) -> (r: i64)
    ensures
        r as int == wrap_s(a as int),
        -PI_FX < r <= PI_FX,
        -PI_FX < a <= PI_FX ==> r == a,
{
    proof {
        lemma_mod_division_less_than_divisor(a as int, TWO_PI_FX as int);
        if 0 <= a <= PI_FX {
            lemma_small_mod(a as nat, TWO_PI_FX as nat);
        }
        if -PI_FX < a < 0 {
            lemma_mod_add_multiples_vanish(a as int, TWO_PI_FX as int);
            lemma_small_mod((a + TWO_PI_FX) as nat, TWO_PI_FX as nat);
        }
    }
    let r0: i64 = a.checked_rem_euclid(TWO_PI_FX).unwrap();
    if r0 > PI_FX {
        r0 - TWO_PI_FX
    } else {
        r0
    }
}

/// Holds when `r` is the integer square root of `n`, rounded down.
pub open spec fn is_sqrt_floor(n: int, r: int) -> bool {
    0 <= r && r * r <= n && n < (r + 1) * (r + 1)
}

/// The integer square root, rounded down, of a nonnegative number.
pub open spec fn sqrt_floor(n: int) -> int {
    choose|r: int| is_sqrt_floor(n, r)
}

/// The rounded-down square root is unique.
pub proof fn lemma_sqrt_floor_unique(n: int, r1: int, r2: int)
    requires
        is_sqrt_floor(n, r1),
        is_sqrt_floor(n, r2),
    ensures
        r1 == r2,
{
    if r1 < r2 {
        assert((r1 + 1) * (r1 + 1) <= r2 * r2) by (nonlinear_arith)
            requires
                0 <= r1,
                0 <= r2,
                r1 < r2,
        ;
    }
    if r2 < r1 {
        assert((r2 + 1) * (r2 + 1) <= r1 * r1) by (nonlinear_arith)
            requires
                0 <= r1,
                0 <= r2,
                r2 < r1,
        ;
    }
}

/// The integer square root, rounded down, by bisection.
pub fn isqrt(n: u128) -> (r: u64)
    requires
        (n as int) < 0x100000000000000000000,
    ensures
        is_sqrt_floor(n as int, r as int),
        r as int == sqrt_floor(n as int),
{
    let mut lo: u64 = 0;
    let mut hi: u64 = 0x100_0000_0000;
    proof {
        assert((hi as int + 1) * (hi as int + 1) > n as int) by (nonlinear_arith)
            requires
                hi as int == 0x100_0000_0000,
                (n as int) < 0x100000000000000000000,
        ;
    }
    while lo < hi
        invariant
            lo <= hi <= 0x100_0000_0000,
            (lo as int) * (lo as int) <= n as int,
            (n as int) < ((hi as int) + 1) * ((hi as int) + 1),
        decreases hi - lo,
    {
        let mid: u64 = lo + (hi - lo + 1) / 2;
        proof {
            assert((mid as int) * (mid as int) <= 0x100000000000000000000)
                by (nonlinear_arith)
                requires
                    0 <= mid as int <= 0x100_0000_0000,
            ;
        }
        let sq: u128 = (mid as u128) * (mid as u128);
        if sq <= n {
            lo = mid;
        } else {
            hi = mid - 1;
        }
    }
    proof {
        assert(is_sqrt_floor(n as int, lo as int));
        assert(is_sqrt_floor(n as int, sqrt_floor(n as int)));
        lemma_sqrt_floor_unique(n as int, lo as int, sqrt_floor(n as int));
    }
    lo
}

} // verus!
