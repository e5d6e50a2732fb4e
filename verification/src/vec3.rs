//! Fixed-point 3-component vectors.
//!
//! Components are fixed-point scalars (see [`crate::fixed`]). Dot and cross
//! products are *raw*: they are sums of plain integer products, without the
//! scale-back division, so their algebraic identities (such as a cross
//! product being orthogonal to both factors) hold exactly. Normalization
//! divides each component by the rounded-down square root of the raw squared
//! norm and scales by [`SCALE`], which yields a unit vector in fixed point.

use crate::fixed::{
    fx_mul_div, iabs, is_sqrt_floor, isqrt, lemma_sqrt_floor_unique, lemma_tdiv_product_bound,
    sqrt_floor, tdiv, SCALE,
};
use vstd::arithmetic::div_mod::lemma_div_multiples_vanish;
use vstd::prelude::*;

verus! {

/// A vector of three fixed-point scalars.
#[derive(Clone, Copy, Debug, PartialEq, Eq, Structural)]
pub struct Vec3 {
    pub x: i64,
    pub y: i64,
    pub z: i64,
}

/// The raw squared norm: the sum of the squared components, unscaled.
pub open spec fn norm_sq_s(v: Vec3) -> int {
    v.x * v.x + v.y * v.y + v.z * v.z
}

/// The raw dot product, unscaled.
pub open spec fn dot_s(a: Vec3, b: Vec3) -> int {
    a.x * b.x + a.y * b.y + a.z * b.z
}

/// The raw cross product, unscaled.
/// Meaningful when the true component values fit in `i64`.
pub open spec fn cross_vs(a: Vec3, b: Vec3) -> Vec3 {
    Vec3 {
        x: (a.y * b.z - a.z * b.y) as i64,
        y: (a.z * b.x - a.x * b.z) as i64,
        z: (a.x * b.y - a.y * b.x) as i64,
    }
}

/// The normalized vector: each component is `c * SCALE / m`, truncated,
/// with `m` the rounded-down square root of the raw squared norm.
/// Meaningful when the squared norm is positive.
pub open spec fn normalize_s(v: Vec3) -> Vec3 {
    let m = sqrt_floor(norm_sq_s(v));
    Vec3 {
        x: tdiv(v.x * SCALE as int, m) as i64,
        y: tdiv(v.y * SCALE as int, m) as i64,
        z: tdiv(v.z * SCALE as int, m) as i64,
    }
}

/// Normalization with a degenerate-direction guard: a vector whose raw
/// squared norm falls below `SCALE * SCALE` (a raw magnitude below
/// `SCALE`) is replaced by the fallback. The directions this crate
/// normalizes carry raw magnitudes near `SCALE * SCALE` — unscaled
/// products of unit-range scalars — so the guard engages only on
/// genuinely degenerate input, at about `1/SCALE` of full length.
pub open spec fn unit_or_s(v: Vec3, fb: Vec3) -> Vec3 {
    if norm_sq_s(v) < (SCALE as int) * (SCALE as int) {
        fb
    } else {
        normalize_s(v)
    }
}

/// The vector's raw squared norm stays close to the one of an exact unit
/// vector: this is what "unit length within tolerance" means in fixed point.
pub open spec fn unit_band(v: Vec3) -> bool {
    (SCALE as int) * (SCALE as int) - 6 * (SCALE as int) <= norm_sq_s(v)
        <= (SCALE as int) * (SCALE as int) + 2 * (SCALE as int) + 3
}

/// The rounded-down square root exists for every nonnegative number.
pub proof fn lemma_sqrt_floor_exists(n: int)
    requires
        n >= 0,
    ensures
        is_sqrt_floor(n, sqrt_floor(n)),
    decreases n,
{
    if n == 0 {
        assert(is_sqrt_floor(0, 0));
    } else {
        lemma_sqrt_floor_exists(n - 1);
        let r0 = sqrt_floor(n - 1);
        if (r0 + 1) * (r0 + 1) <= n {
            assert(is_sqrt_floor(n, r0 + 1)) by (nonlinear_arith)
                requires
                    is_sqrt_floor(n - 1, r0),
                    (r0 + 1) * (r0 + 1) <= n,
            ;
        } else {
            assert(is_sqrt_floor(n, r0));
        }
    }
}

/// No component of a vector outgrows the rounded-down root of its norm.
pub proof fn lemma_component_le_root(v: Vec3, m: int)
    requires
        is_sqrt_floor(norm_sq_s(v), m),
    ensures
        iabs(v.x as int) <= m,
        iabs(v.y as int) <= m,
        iabs(v.z as int) <= m,
{
    assert(iabs(v.x as int) <= m && iabs(v.y as int) <= m && iabs(v.z as int) <= m)
        by (nonlinear_arith)
        requires
            0 <= m,
            v.x * v.x + v.y * v.y + v.z * v.z < (m + 1) * (m + 1),
    ;
}

/// A cross product is exactly orthogonal to both of its factors.
pub proof fn lemma_cross_orthogonal(a: Vec3, b: Vec3)
    requires
        iabs(a.x as int) <= 0x4000_0000,
        iabs(a.y as int) <= 0x4000_0000,
        iabs(a.z as int) <= 0x4000_0000,
        iabs(b.x as int) <= 0x4000_0000,
        iabs(b.y as int) <= 0x4000_0000,
        iabs(b.z as int) <= 0x4000_0000,
    ensures
        dot_s(cross_vs(a, b), a) == 0,
        dot_s(cross_vs(a, b), b) == 0,
{
    let cx = a.y * b.z - a.z * b.y;
    let cy = a.z * b.x - a.x * b.z;
    let cz = a.x * b.y - a.y * b.x;
    assert(iabs(cx) <= 0x2000_0000_0000_0000 && iabs(cy) <= 0x2000_0000_0000_0000
        && iabs(cz) <= 0x2000_0000_0000_0000) by (nonlinear_arith)
        requires
            iabs(a.x as int) <= 0x4000_0000,
            iabs(a.y as int) <= 0x4000_0000,
            iabs(a.z as int) <= 0x4000_0000,
            iabs(b.x as int) <= 0x4000_0000,
            iabs(b.y as int) <= 0x4000_0000,
            iabs(b.z as int) <= 0x4000_0000,
            cx == a.y * b.z - a.z * b.y,
            cy == a.z * b.x - a.x * b.z,
            cz == a.x * b.y - a.y * b.x,
    ;
    let c = cross_vs(a, b);
    assert(c.x as int == cx && c.y as int == cy && c.z as int == cz);
    assert(cx * a.x + cy * a.y + cz * a.z == 0) by (nonlinear_arith)
        requires
            cx == a.y * b.z - a.z * b.y,
            cy == a.z * b.x - a.x * b.z,
            cz == a.x * b.y - a.y * b.x,
    ;
    assert(cx * b.x + cy * b.y + cz * b.z == 0) by (nonlinear_arith)
        requires
            cx == a.y * b.z - a.z * b.y,
            cy == a.z * b.x - a.x * b.z,
            cz == a.x * b.y - a.y * b.x,
    ;
}

/// Normalizing keeps a direction orthogonal to a given vector nearly
/// orthogonal to it: the raw dot product ends up below the sum of the
/// magnitudes of that vector's components, a vanishing quantity next to
/// the `SCALE * SCALE` a typical aligned dot product has.
pub proof fn lemma_normalize_orthogonal(v: Vec3, u: Vec3)
    requires
        norm_sq_s(v) >= 1,
        dot_s(v, u) == 0,
    ensures
        iabs(dot_s(normalize_s(v), u)) <= iabs(u.x as int) + iabs(u.y as int) + iabs(u.z as int),
{
    let s = SCALE as int;
    let n = norm_sq_s(v);
    lemma_sqrt_floor_exists(n);
    let m = sqrt_floor(n);
    assert(m >= 1) by (nonlinear_arith)
        requires
            n < (m + 1) * (m + 1),
            n >= 1,
            m >= 0,
    ;
    lemma_component_le_root(v, m);
    crate::fixed::lemma_tdiv_decompose(v.x as int * s, m);
    crate::fixed::lemma_tdiv_decompose(v.y as int * s, m);
    crate::fixed::lemma_tdiv_decompose(v.z as int * s, m);
    let qx = tdiv(v.x as int * s, m);
    let qy = tdiv(v.y as int * s, m);
    let qz = tdiv(v.z as int * s, m);
    let ex = v.x as int * s - qx * m;
    let ey = v.y as int * s - qy * m;
    let ez = v.z as int * s - qz * m;
    lemma_tdiv_product_bound(v.x as int, s, m, m, s);
    lemma_tdiv_product_bound(v.y as int, s, m, m, s);
    lemma_tdiv_product_bound(v.z as int, s, m, m, s);
    lemma_div_multiples_vanish(s, m);
    let r = normalize_s(v);
    assert(r.x as int == qx && r.y as int == qy && r.z as int == qz);
    let ux = u.x as int;
    let uy = u.y as int;
    let uz = u.z as int;
    let esum = ex * ux + ey * uy + ez * uz;
    assert(qx * ux * m == (v.x as int * s) * ux - ex * ux) by (nonlinear_arith)
        requires
            qx * m == v.x as int * s - ex,
    ;
    assert(qy * uy * m == (v.y as int * s) * uy - ey * uy) by (nonlinear_arith)
        requires
            qy * m == v.y as int * s - ey,
    ;
    assert(qz * uz * m == (v.z as int * s) * uz - ez * uz) by (nonlinear_arith)
        requires
            qz * m == v.z as int * s - ez,
    ;
    assert((v.x as int * s) * ux + (v.y as int * s) * uy + (v.z as int * s) * uz == 0)
        by (nonlinear_arith)
        requires
            v.x as int * ux + v.y as int * uy + v.z as int * uz == 0,
    ;
    let d = dot_s(r, u);
    assert(d * m == qx * ux * m + qy * uy * m + qz * uz * m) by (nonlinear_arith)
        requires
            d == qx * ux + qy * uy + qz * uz,
    ;
    assert(d * m == -esum);
    let uu = iabs(ux) + iabs(uy) + iabs(uz);
    assert(iabs(ex * ux) <= (m - 1) * iabs(ux)) by (nonlinear_arith)
        requires
            iabs(ex) <= m - 1,
            m >= 1,
    ;
    assert(iabs(ey * uy) <= (m - 1) * iabs(uy)) by (nonlinear_arith)
        requires
            iabs(ey) <= m - 1,
            m >= 1,
    ;
    assert(iabs(ez * uz) <= (m - 1) * iabs(uz)) by (nonlinear_arith)
        requires
            iabs(ez) <= m - 1,
            m >= 1,
    ;
    assert(iabs(esum) <= (m - 1) * iabs(ux) + (m - 1) * iabs(uy) + (m - 1) * iabs(uz))
        by (nonlinear_arith)
        requires
            esum == ex * ux + ey * uy + ez * uz,
            iabs(ex * ux) <= (m - 1) * iabs(ux),
            iabs(ey * uy) <= (m - 1) * iabs(uy),
            iabs(ez * uz) <= (m - 1) * iabs(uz),
    ;
    assert(iabs(d) <= uu) by (nonlinear_arith)
        requires
            d * m == -esum,
            iabs(esum) <= (m - 1) * iabs(ux) + (m - 1) * iabs(uy) + (m - 1) * iabs(uz),
            uu == iabs(ux) + iabs(uy) + iabs(uz),
            m >= 1,
            iabs(ux) >= 0,
            iabs(uy) >= 0,
            iabs(uz) >= 0,
    ;
}

/// A vector of magnitude at least one keeps, after normalization, a raw
/// squared norm within the unit band: normalization really produces a
/// unit-length direction, up to fixed-point rounding.
pub proof fn lemma_normalize_unit_band(v: Vec3)
    requires
        norm_sq_s(v) >= (SCALE as int) * (SCALE as int),
    ensures
        unit_band(normalize_s(v)),
{
    let s = SCALE as int;
    let n = norm_sq_s(v);
    lemma_sqrt_floor_exists(n);
    let m = sqrt_floor(n);
    assert(m >= s) by (nonlinear_arith)
        requires
            n < (m + 1) * (m + 1),
            n >= s * s,
            m >= 0,
            s >= 1,
    ;
    lemma_component_le_root(v, m);
    crate::fixed::lemma_tdiv_decompose(v.x as int * s, m);
    crate::fixed::lemma_tdiv_decompose(v.y as int * s, m);
    crate::fixed::lemma_tdiv_decompose(v.z as int * s, m);
    let qx = tdiv(v.x as int * s, m);
    let qy = tdiv(v.y as int * s, m);
    let qz = tdiv(v.z as int * s, m);
    let ex = v.x as int * s - qx * m;
    let ey = v.y as int * s - qy * m;
    let ez = v.z as int * s - qz * m;
    lemma_tdiv_product_bound(v.x as int, s, m, m, s);
    lemma_tdiv_product_bound(v.y as int, s, m, m, s);
    lemma_tdiv_product_bound(v.z as int, s, m, m, s);
    lemma_div_multiples_vanish(s, m);
    let r = normalize_s(v);
    assert(r.x as int == qx && r.y as int == qy && r.z as int == qz);
    let ax = v.x as int * s;
    let ay = v.y as int * s;
    let az = v.z as int * s;
    assert(qx * qx * (m * m) == ax * ax - 2 * (ax * ex) + ex * ex) by (nonlinear_arith)
        requires
            qx * m == ax - ex,
    ;
    assert(qy * qy * (m * m) == ay * ay - 2 * (ay * ey) + ey * ey) by (nonlinear_arith)
        requires
            qy * m == ay - ey,
    ;
    assert(qz * qz * (m * m) == az * az - 2 * (az * ez) + ez * ez) by (nonlinear_arith)
        requires
            qz * m == az - ez,
    ;
    let t = qx * qx + qy * qy + qz * qz;
    let sumve = ax * ex + ay * ey + az * ez;
    let sume2 = ex * ex + ey * ey + ez * ez;
    assert(t * (m * m) == qx * qx * (m * m) + qy * qy * (m * m) + qz * qz * (m * m))
        by (nonlinear_arith)
        requires
            t == qx * qx + qy * qy + qz * qz,
    ;
    assert(ax * ax == s * s * (v.x as int * v.x as int)) by (nonlinear_arith)
        requires
            ax == v.x as int * s,
    ;
    assert(ay * ay == s * s * (v.y as int * v.y as int)) by (nonlinear_arith)
        requires
            ay == v.y as int * s,
    ;
    assert(az * az == s * s * (v.z as int * v.z as int)) by (nonlinear_arith)
        requires
            az == v.z as int * s,
    ;
    assert(s * s * n == s * s * (v.x as int * v.x as int) + s * s * (v.y as int * v.y as int)
        + s * s * (v.z as int * v.z as int)) by (nonlinear_arith)
        requires
            n == v.x as int * v.x as int + v.y as int * v.y as int + v.z as int * v.z as int,
    ;
    assert(ax * ax + ay * ay + az * az == s * s * n);
    assert(t * (m * m) == s * s * n - 2 * sumve + sume2);
    assert(iabs(ax) <= m * s) by (nonlinear_arith)
        requires
            iabs(v.x as int) <= m,
            ax == v.x as int * s,
            s >= 1,
    ;
    assert(iabs(ay) <= m * s) by (nonlinear_arith)
        requires
            iabs(v.y as int) <= m,
            ay == v.y as int * s,
            s >= 1,
    ;
    assert(iabs(az) <= m * s) by (nonlinear_arith)
        requires
            iabs(v.z as int) <= m,
            az == v.z as int * s,
            s >= 1,
    ;
    assert(ax * ex <= (m * s) * (m - 1)) by (nonlinear_arith)
        requires
            iabs(ax) <= m * s,
            iabs(ex) <= m - 1,
            m >= 1,
            s >= 1,
    ;
    assert(ay * ey <= (m * s) * (m - 1)) by (nonlinear_arith)
        requires
            iabs(ay) <= m * s,
            iabs(ey) <= m - 1,
            m >= 1,
            s >= 1,
    ;
    assert(az * ez <= (m * s) * (m - 1)) by (nonlinear_arith)
        requires
            iabs(az) <= m * s,
            iabs(ez) <= m - 1,
            m >= 1,
            s >= 1,
    ;
    assert(3 * ((m * s) * (m - 1)) <= 3 * (s * (m * m))) by (nonlinear_arith)
        requires
            m >= 1,
            s >= 1,
    ;
    assert(0 <= ex * ex <= m * m) by (nonlinear_arith)
        requires
            iabs(ex) <= m - 1,
            m >= 1,
    ;
    assert(0 <= ey * ey <= m * m) by (nonlinear_arith)
        requires
            iabs(ey) <= m - 1,
            m >= 1,
    ;
    assert(0 <= ez * ez <= m * m) by (nonlinear_arith)
        requires
            iabs(ez) <= m - 1,
            m >= 1,
    ;
    assert(sumve >= 0 && sumve <= 3 * (s * (m * m)) && 0 <= sume2 <= 3 * (m * m));
    assert(n <= m * m + 2 * m) by (nonlinear_arith)
        requires
            n < (m + 1) * (m + 1),
    ;
    assert(s * s * n <= s * s * (m * m) + 2 * ((s * s) * m)) by (nonlinear_arith)
        requires
            n <= m * m + 2 * m,
            s >= 1,
    ;
    assert(2 * ((s * s) * m) <= 2 * (s * (m * m))) by (nonlinear_arith)
        requires
            1 <= s <= m,
    ;
    assert(t * (m * m) <= s * s * (m * m) + 2 * (s * (m * m)) + 3 * (m * m));
    assert(s * s * (m * m) + 2 * (s * (m * m)) + 3 * (m * m) == (m * m) * (s * s + 2 * s + 3))
        by (nonlinear_arith)
    ;
    assert(t <= s * s + 2 * s + 3) by (nonlinear_arith)
        requires
            t * (m * m) <= (m * m) * (s * s + 2 * s + 3),
            m >= 1,
    ;
    assert(s * s * n >= s * s * (m * m)) by (nonlinear_arith)
        requires
            n >= m * m,
            s >= 1,
    ;
    assert(2 * sumve <= 6 * (s * (m * m)));
    assert(t * (m * m) >= s * s * (m * m) - 6 * (s * (m * m)));
    assert(s * s * (m * m) - 6 * (s * (m * m)) == (m * m) * (s * s - 6 * s)) by (nonlinear_arith)
    ;
    assert(t >= s * s - 6 * s) by (nonlinear_arith)
        requires
            t * (m * m) >= (m * m) * (s * s - 6 * s),
            m >= 1,
    ;
    assert(norm_sq_s(r) == t);
}

impl Vec3 {
    /// The raw squared norm.
    pub fn norm_sq(&self) -> (n: u128)
        requires
            iabs(self.x as int) <= 0x8_0000_0000,
            iabs(self.y as int) <= 0x8_0000_0000,
            iabs(self.z as int) <= 0x8_0000_0000,
        ensures
            n as int == norm_sq_s(*self),
            n as int <= 0xc0_0000_0000_0000_0000,
    {
        proof {
            assert(0 <= self.x * self.x <= 0x40_0000_0000_0000_0000
                && 0 <= self.y * self.y <= 0x40_0000_0000_0000_0000
                && 0 <= self.z * self.z <= 0x40_0000_0000_0000_0000) by (nonlinear_arith)
                requires
                    iabs(self.x as int) <= 0x8_0000_0000,
                    iabs(self.y as int) <= 0x8_0000_0000,
                    iabs(self.z as int) <= 0x8_0000_0000,
            ;
        }
        let xx: i128 = (self.x as i128) * (self.x as i128);
        let yy: i128 = (self.y as i128) * (self.y as i128);
        let zz: i128 = (self.z as i128) * (self.z as i128);
        (xx + yy + zz) as u128
    }

    /// The raw dot product with another vector.
    pub fn dot(&self, o: &Vec3) -> (d: i64)
        requires
            iabs(self.x as int) <= 0x4000_0000,
            iabs(self.y as int) <= 0x4000_0000,
            iabs(self.z as int) <= 0x4000_0000,
            iabs(o.x as int) <= 0x4000_0000,
            iabs(o.y as int) <= 0x4000_0000,
            iabs(o.z as int) <= 0x4000_0000,
        ensures
            d as int == dot_s(*self, *o),
    {
        proof {
            assert(iabs(self.x * o.x) <= 0x1000_0000_0000_0000
                && iabs(self.y * o.y) <= 0x1000_0000_0000_0000
                && iabs(self.z * o.z) <= 0x1000_0000_0000_0000) by (nonlinear_arith)
                requires
                    iabs(self.x as int) <= 0x4000_0000,
                    iabs(self.y as int) <= 0x4000_0000,
                    iabs(self.z as int) <= 0x4000_0000,
                    iabs(o.x as int) <= 0x4000_0000,
                    iabs(o.y as int) <= 0x4000_0000,
                    iabs(o.z as int) <= 0x4000_0000,
            ;
        }
        self.x * o.x + self.y * o.y + self.z * o.z
    }

    /// The raw cross product with another vector.
    pub fn cross(&self, o: &Vec3) -> (r: Vec3)
        requires
            iabs(self.x as int) <= 0x4000_0000,
            iabs(self.y as int) <= 0x4000_0000,
            iabs(self.z as int) <= 0x4000_0000,
            iabs(o.x as int) <= 0x4000_0000,
            iabs(o.y as int) <= 0x4000_0000,
            iabs(o.z as int) <= 0x4000_0000,
        ensures
            r == cross_vs(*self, *o),
            r.x as int == self.y * o.z - self.z * o.y,
            r.y as int == self.z * o.x - self.x * o.z,
            r.z as int == self.x * o.y - self.y * o.x,
            iabs(self.x as int) <= SCALE && iabs(self.y as int) <= SCALE
                && iabs(self.z as int) <= SCALE && iabs(o.x as int) <= SCALE
                && iabs(o.y as int) <= SCALE && iabs(o.z as int) <= SCALE
                ==> iabs(r.x as int) <= 2 * (SCALE as int) * (SCALE as int)
                    && iabs(r.y as int) <= 2 * (SCALE as int) * (SCALE as int)
                    && iabs(r.z as int) <= 2 * (SCALE as int) * (SCALE as int),
    {
        proof {
            assert(iabs(self.y * o.z) <= 0x1000_0000_0000_0000
                && iabs(self.z * o.y) <= 0x1000_0000_0000_0000
                && iabs(self.z * o.x) <= 0x1000_0000_0000_0000
                && iabs(self.x * o.z) <= 0x1000_0000_0000_0000
                && iabs(self.x * o.y) <= 0x1000_0000_0000_0000
                && iabs(self.y * o.x) <= 0x1000_0000_0000_0000) by (nonlinear_arith)
                requires
                    iabs(self.x as int) <= 0x4000_0000,
                    iabs(self.y as int) <= 0x4000_0000,
                    iabs(self.z as int) <= 0x4000_0000,
                    iabs(o.x as int) <= 0x4000_0000,
                    iabs(o.y as int) <= 0x4000_0000,
                    iabs(o.z as int) <= 0x4000_0000,
            ;
            if iabs(self.x as int) <= SCALE && iabs(self.y as int) <= SCALE
                && iabs(self.z as int) <= SCALE && iabs(o.x as int) <= SCALE
                && iabs(o.y as int) <= SCALE && iabs(o.z as int) <= SCALE {
                assert(iabs(self.y * o.z - self.z * o.y) <= 2 * (SCALE as int) * (SCALE as int)
                    && iabs(self.z * o.x - self.x * o.z) <= 2 * (SCALE as int) * (SCALE as int)
                    && iabs(self.x * o.y - self.y * o.x) <= 2 * (SCALE as int) * (SCALE as int))
                    by (nonlinear_arith)
                    requires
                        iabs(self.x as int) <= SCALE,
                        iabs(self.y as int) <= SCALE,
                        iabs(self.z as int) <= SCALE,
                        iabs(o.x as int) <= SCALE,
                        iabs(o.y as int) <= SCALE,
                        iabs(o.z as int) <= SCALE,
                ;
            }
        }
        Vec3 {
            x: self.y * o.z - self.z * o.y,
            y: self.z * o.x - self.x * o.z,
            z: self.x * o.y - self.y * o.x,
        }
    }

    /// The normalized vector; the direction must not be the zero vector.
    pub fn normalize(&self) -> (r: Vec3)
        requires
            iabs(self.x as int) <= 0x8_0000_0000,
            iabs(self.y as int) <= 0x8_0000_0000,
            iabs(self.z as int) <= 0x8_0000_0000,
            norm_sq_s(*self) >= 1,
        ensures
            r == normalize_s(*self),
            iabs(r.x as int) <= SCALE,
            iabs(r.y as int) <= SCALE,
            iabs(r.z as int) <= SCALE,
    {
        let n = self.norm_sq();
        let m64 = isqrt(n);
        proof {
            assert(m64 as int <= 0x10_0000_0000) by (nonlinear_arith)
                requires
                    (m64 as int) * (m64 as int) <= n as int,
                    n as int <= 0xc0_0000_0000_0000_0000,
                    m64 as int >= 0,
            ;
            assert(m64 as int >= 1) by (nonlinear_arith)
                requires
                    (n as int) < ((m64 as int) + 1) * ((m64 as int) + 1),
                    n as int >= 1,
                    m64 as int >= 0,
            ;
        }
        let m = m64 as i64;
        proof {
            lemma_component_le_root(*self, m as int);
            lemma_tdiv_product_bound(self.x as int, SCALE as int, m as int, m as int, SCALE as int);
            lemma_tdiv_product_bound(self.y as int, SCALE as int, m as int, m as int, SCALE as int);
            lemma_tdiv_product_bound(self.z as int, SCALE as int, m as int, m as int, SCALE as int);
            lemma_div_multiples_vanish(SCALE as int, m as int);
            crate::fixed::lemma_tdiv_magnitude(self.x as int * SCALE as int, m as int);
            crate::fixed::lemma_tdiv_magnitude(self.y as int * SCALE as int, m as int);
            crate::fixed::lemma_tdiv_magnitude(self.z as int * SCALE as int, m as int);
        }
        let rx = fx_mul_div(self.x, SCALE, m);
        let ry = fx_mul_div(self.y, SCALE, m);
        let rz = fx_mul_div(self.z, SCALE, m);
        Vec3 { x: rx, y: ry, z: rz }
    }

    /// Normalization with the degenerate-direction guard: a vector of
    /// raw magnitude below `SCALE` is replaced by the (unit) fallback.
    pub fn unit_or(&self, fb: Vec3) -> (r: Vec3)
        requires
            iabs(self.x as int) <= 0x8_0000_0000,
            iabs(self.y as int) <= 0x8_0000_0000,
            iabs(self.z as int) <= 0x8_0000_0000,
            iabs(fb.x as int) <= SCALE,
            iabs(fb.y as int) <= SCALE,
            iabs(fb.z as int) <= SCALE,
        ensures
            r == unit_or_s(*self, fb),
            iabs(r.x as int) <= SCALE,
            iabs(r.y as int) <= SCALE,
            iabs(r.z as int) <= SCALE,
            unit_band(fb) ==> unit_band(r),
    {
        let n = self.norm_sq();
        if n < 0x1_0000_0000u128 {
            fb
        } else {
            proof {
                lemma_normalize_unit_band(*self);
            }
            self.normalize()
        }
    }
}

} // verus!
