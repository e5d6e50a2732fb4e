//! Fixed-point 4x4 matrices.
//!
//! Entries are fixed-point scalars stored row-major in named fields
//! (`mRC` is row `R`, column `C`). A product entry is the four-term sum of
//! products scaled back by one division, then forced into
//! `[-ENTRY_LIMIT_FX, ENTRY_LIMIT_FX]`: entries stay representable whatever
//! the operands were, and for the entry ranges the camera produces the
//! clamp never engages.

use crate::fixed::{clamp_s, iabs, lemma_tdiv_magnitude, tdiv, SCALE};
use vstd::prelude::*;

verus! {

/// Largest entry magnitude a matrix product hands back.
pub const ENTRY_LIMIT_FX: i64 = 0x400_0000_0000_0000;

/// One product entry: a four-term dot product, scaled back and bounded.
pub open spec fn dot4_s(
    a0: int,
    b0: int,
    a1: int,
    b1: int,
    a2: int,
    b2: int,
    a3: int,
    b3: int,
) -> int {
    clamp_s(
        tdiv(a0 * b0 + a1 * b1 + a2 * b2 + a3 * b3, SCALE as int),
        -(ENTRY_LIMIT_FX as int),
        ENTRY_LIMIT_FX as int,
    )
}

/// A 4x4 matrix of fixed-point scalars, row-major.
#[derive(Clone, Copy, Debug, PartialEq, Eq, Structural)]
pub struct Mat4 {
    pub m00: i64,
    pub m01: i64,
    pub m02: i64,
    pub m03: i64,
    pub m10: i64,
    pub m11: i64,
    pub m12: i64,
    pub m13: i64,
    pub m20: i64,
    pub m21: i64,
    pub m22: i64,
    pub m23: i64,
    pub m30: i64,
    pub m31: i64,
    pub m32: i64,
    pub m33: i64,
}

/// All entries within the product-entry bound.
pub open spec fn bounded_s(m: Mat4) -> bool {
    &&& iabs(m.m00 as int) <= ENTRY_LIMIT_FX
    &&& iabs(m.m01 as int) <= ENTRY_LIMIT_FX
    &&& iabs(m.m02 as int) <= ENTRY_LIMIT_FX
    &&& iabs(m.m03 as int) <= ENTRY_LIMIT_FX
    &&& iabs(m.m10 as int) <= ENTRY_LIMIT_FX
    &&& iabs(m.m11 as int) <= ENTRY_LIMIT_FX
    &&& iabs(m.m12 as int) <= ENTRY_LIMIT_FX
    &&& iabs(m.m13 as int) <= ENTRY_LIMIT_FX
    &&& iabs(m.m20 as int) <= ENTRY_LIMIT_FX
    &&& iabs(m.m21 as int) <= ENTRY_LIMIT_FX
    &&& iabs(m.m22 as int) <= ENTRY_LIMIT_FX
    &&& iabs(m.m23 as int) <= ENTRY_LIMIT_FX
    &&& iabs(m.m30 as int) <= ENTRY_LIMIT_FX
    &&& iabs(m.m31 as int) <= ENTRY_LIMIT_FX
    &&& iabs(m.m32 as int) <= ENTRY_LIMIT_FX
    &&& iabs(m.m33 as int) <= ENTRY_LIMIT_FX
}

/// The fixed-point matrix product, entry by entry.
pub open spec fn mat_mul_s(a: Mat4, b: Mat4) -> Mat4 {
    Mat4 {
        m00: dot4_s(a.m00 as int, b.m00 as int, a.m01 as int, b.m10 as int, a.m02 as int, b.m20 as int, a.m03 as int, b.m30 as int) as i64,
        m01: dot4_s(a.m00 as int, b.m01 as int, a.m01 as int, b.m11 as int, a.m02 as int, b.m21 as int, a.m03 as int, b.m31 as int) as i64,
        m02: dot4_s(a.m00 as int, b.m02 as int, a.m01 as int, b.m12 as int, a.m02 as int, b.m22 as int, a.m03 as int, b.m32 as int) as i64,
        m03: dot4_s(a.m00 as int, b.m03 as int, a.m01 as int, b.m13 as int, a.m02 as int, b.m23 as int, a.m03 as int, b.m33 as int) as i64,
        m10: dot4_s(a.m10 as int, b.m00 as int, a.m11 as int, b.m10 as int, a.m12 as int, b.m20 as int, a.m13 as int, b.m30 as int) as i64,
        m11: dot4_s(a.m10 as int, b.m01 as int, a.m11 as int, b.m11 as int, a.m12 as int, b.m21 as int, a.m13 as int, b.m31 as int) as i64,
        m12: dot4_s(a.m10 as int, b.m02 as int, a.m11 as int, b.m12 as int, a.m12 as int, b.m22 as int, a.m13 as int, b.m32 as int) as i64,
        m13: dot4_s(a.m10 as int, b.m03 as int, a.m11 as int, b.m13 as int, a.m12 as int, b.m23 as int, a.m13 as int, b.m33 as int) as i64,
        m20: dot4_s(a.m20 as int, b.m00 as int, a.m21 as int, b.m10 as int, a.m22 as int, b.m20 as int, a.m23 as int, b.m30 as int) as i64,
        m21: dot4_s(a.m20 as int, b.m01 as int, a.m21 as int, b.m11 as int, a.m22 as int, b.m21 as int, a.m23 as int, b.m31 as int) as i64,
        m22: dot4_s(a.m20 as int, b.m02 as int, a.m21 as int, b.m12 as int, a.m22 as int, b.m22 as int, a.m23 as int, b.m32 as int) as i64,
        m23: dot4_s(a.m20 as int, b.m03 as int, a.m21 as int, b.m13 as int, a.m22 as int, b.m23 as int, a.m23 as int, b.m33 as int) as i64,
        m30: dot4_s(a.m30 as int, b.m00 as int, a.m31 as int, b.m10 as int, a.m32 as int, b.m20 as int, a.m33 as int, b.m30 as int) as i64,
        m31: dot4_s(a.m30 as int, b.m01 as int, a.m31 as int, b.m11 as int, a.m32 as int, b.m21 as int, a.m33 as int, b.m31 as int) as i64,
        m32: dot4_s(a.m30 as int, b.m02 as int, a.m31 as int, b.m12 as int, a.m32 as int, b.m22 as int, a.m33 as int, b.m32 as int) as i64,
        m33: dot4_s(a.m30 as int, b.m03 as int, a.m31 as int, b.m13 as int, a.m32 as int, b.m23 as int, a.m33 as int, b.m33 as int) as i64,
    }
}

/// The sixteen entries of a matrix in column-major order.
pub open spec fn cols_s(m: Mat4) -> Seq<i64> {
    seq![
        m.m00,
        m.m10,
        m.m20,
        m.m30,
        m.m01,
        m.m11,
        m.m21,
        m.m31,
        m.m02,
        m.m12,
        m.m22,
        m.m32,
        m.m03,
        m.m13,
        m.m23,
        m.m33,
    ]
}

/// One product entry, executed: widening products, one scale-back
/// division, then the entry clamp.
pub fn fx_dot4(a0: i64, b0: i64, a1: i64, b1: i64, a2: i64, b2: i64, a3: i64, b3: i64) -> (r: i64)
    requires
        iabs(a0 as int) <= ENTRY_LIMIT_FX,
        iabs(b0 as int) <= ENTRY_LIMIT_FX,
        iabs(a1 as int) <= ENTRY_LIMIT_FX,
        iabs(b1 as int) <= ENTRY_LIMIT_FX,
        iabs(a2 as int) <= ENTRY_LIMIT_FX,
        iabs(b2 as int) <= ENTRY_LIMIT_FX,
        iabs(a3 as int) <= ENTRY_LIMIT_FX,
        iabs(b3 as int) <= ENTRY_LIMIT_FX,
    ensures
        r as int == dot4_s(
            a0 as int,
            b0 as int,
            a1 as int,
            b1 as int,
            a2 as int,
            b2 as int,
            a3 as int,
            b3 as int,
        ),
        iabs(r as int) <= ENTRY_LIMIT_FX,
{
    proof {
        assert(iabs(a0 as int * b0 as int) <= 0x10_0000_0000_0000_0000_0000_0000_0000
            && iabs(a1 as int * b1 as int) <= 0x10_0000_0000_0000_0000_0000_0000_0000
            && iabs(a2 as int * b2 as int) <= 0x10_0000_0000_0000_0000_0000_0000_0000
            && iabs(a3 as int * b3 as int) <= 0x10_0000_0000_0000_0000_0000_0000_0000)
            by (nonlinear_arith)
            requires
                iabs(a0 as int) <= ENTRY_LIMIT_FX,
                iabs(b0 as int) <= ENTRY_LIMIT_FX,
                iabs(a1 as int) <= ENTRY_LIMIT_FX,
                iabs(b1 as int) <= ENTRY_LIMIT_FX,
                iabs(a2 as int) <= ENTRY_LIMIT_FX,
                iabs(b2 as int) <= ENTRY_LIMIT_FX,
                iabs(a3 as int) <= ENTRY_LIMIT_FX,
                iabs(b3 as int) <= ENTRY_LIMIT_FX,
        ;
    }
    let p: i128 = (a0 as i128) * (b0 as i128) + (a1 as i128) * (b1 as i128)
        + (a2 as i128) * (b2 as i128) + (a3 as i128) * (b3 as i128);
    proof {
        lemma_tdiv_magnitude(p as int, SCALE as int);
    }
    let q: i128 = p.checked_div(SCALE as i128).unwrap();
    if q < -(ENTRY_LIMIT_FX as i128) {
        -ENTRY_LIMIT_FX
    } else if q > ENTRY_LIMIT_FX as i128 {
        ENTRY_LIMIT_FX
    } else {
        q as i64
    }
}

impl Mat4 {
    /// The fixed-point matrix product `self * o`.
    pub fn mul(&self, o: &Mat4) -> (r: Mat4)
        requires
            bounded_s(*self),
            bounded_s(*o),
        ensures
            r == mat_mul_s(*self, *o),
            bounded_s(r),
    {
        Mat4 {
            m00: fx_dot4(self.m00, o.m00, self.m01, o.m10, self.m02, o.m20, self.m03, o.m30),
            m01: fx_dot4(self.m00, o.m01, self.m01, o.m11, self.m02, o.m21, self.m03, o.m31),
            m02: fx_dot4(self.m00, o.m02, self.m01, o.m12, self.m02, o.m22, self.m03, o.m32),
            m03: fx_dot4(self.m00, o.m03, self.m01, o.m13, self.m02, o.m23, self.m03, o.m33),
            m10: fx_dot4(self.m10, o.m00, self.m11, o.m10, self.m12, o.m20, self.m13, o.m30),
            m11: fx_dot4(self.m10, o.m01, self.m11, o.m11, self.m12, o.m21, self.m13, o.m31),
            m12: fx_dot4(self.m10, o.m02, self.m11, o.m12, self.m12, o.m22, self.m13, o.m32),
            m13: fx_dot4(self.m10, o.m03, self.m11, o.m13, self.m12, o.m23, self.m13, o.m33),
            m20: fx_dot4(self.m20, o.m00, self.m21, o.m10, self.m22, o.m20, self.m23, o.m30),
            m21: fx_dot4(self.m20, o.m01, self.m21, o.m11, self.m22, o.m21, self.m23, o.m31),
            m22: fx_dot4(self.m20, o.m02, self.m21, o.m12, self.m22, o.m22, self.m23, o.m32),
            m23: fx_dot4(self.m20, o.m03, self.m21, o.m13, self.m22, o.m23, self.m23, o.m33),
            m30: fx_dot4(self.m30, o.m00, self.m31, o.m10, self.m32, o.m20, self.m33, o.m30),
            m31: fx_dot4(self.m30, o.m01, self.m31, o.m11, self.m32, o.m21, self.m33, o.m31),
            m32: fx_dot4(self.m30, o.m02, self.m31, o.m12, self.m32, o.m22, self.m33, o.m32),
            m33: fx_dot4(self.m30, o.m03, self.m31, o.m13, self.m32, o.m23, self.m33, o.m33),
        }
    }

    /// The sixteen entries in column-major order, the layout the GPU's
    /// uniform block expects.
    pub fn to_cols(&self) -> (v: Vec<i64>)
        ensures
            v@ == cols_s(*self),
            v@.len() == 16,
    {
        let mut v: Vec<i64> = Vec::new();
        v.push(self.m00);
        v.push(self.m10);
        v.push(self.m20);
        v.push(self.m30);
        v.push(self.m01);
        v.push(self.m11);
        v.push(self.m21);
        v.push(self.m31);
        v.push(self.m02);
        v.push(self.m12);
        v.push(self.m22);
        v.push(self.m32);
        v.push(self.m03);
        v.push(self.m13);
        v.push(self.m23);
        v.push(self.m33);
        proof {
            assert(v@ =~= cols_s(*self));
        }
        v
    }
}

} // verus!
