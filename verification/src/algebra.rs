//! Small fixed-point linear algebra: the vectors and matrices that flow
//! through the render passes.

use vstd::prelude::*;
use crate::fixed::{abs_int, fx_div_spec, fx_mul_spec, Fx, FX_ONE};

verus! {

/// A two-component vector of fixed-point scalars.
#[derive(Clone, Copy, Debug, PartialEq, Eq, Structural)]
pub struct Vector2 {
    /// First component.
    pub x: Fx,
    /// Second component.
    pub y: Fx,
}

impl Vector2 {
    /// Builds a vector from its components.
    pub fn new(x: Fx, y: Fx) -> (v: Vector2)
        ensures
            v == (Vector2 { x, y }),
    {
        Vector2 { x, y }
    }
}

/// A three-component vector of fixed-point scalars.
#[derive(Clone, Copy, Debug, PartialEq, Eq, Structural)]
pub struct Vector3 {
    /// First component.
    pub x: Fx,
    /// Second component.
    pub y: Fx,
    /// Third component.
    pub z: Fx,
}

impl Vector3 {
    /// Builds a vector from its components.
    pub fn new(x: Fx, y: Fx, z: Fx) -> (v: Vector3)
        ensures
            v == (Vector3 { x, y, z }),
    {
        Vector3 { x, y, z }
    }

    /// The zero vector.
    pub fn zeros() -> (v: Vector3)
        ensures
            v == (Vector3 { x: Fx { raw: 0 }, y: Fx { raw: 0 }, z: Fx { raw: 0 } }),
    {
        Vector3 { x: Fx { raw: 0 }, y: Fx { raw: 0 }, z: Fx { raw: 0 } }
    }
}

/// A 3 x 3 matrix of fixed-point scalars, row by row: `mRC` is row R,
/// column C.
#[derive(Clone, Copy, Debug, PartialEq, Eq, Structural)]
pub struct Matrix3 {
    /// Row 1, column 1.
    pub m11: Fx,
    /// Row 1, column 2.
    pub m12: Fx,
    /// Row 1, column 3.
    pub m13: Fx,
    /// Row 2, column 1.
    pub m21: Fx,
    /// Row 2, column 2.
    pub m22: Fx,
    /// Row 2, column 3.
    pub m23: Fx,
    /// Row 3, column 1.
    pub m31: Fx,
    /// Row 3, column 2.
    pub m32: Fx,
    /// Row 3, column 3.
    pub m33: Fx,
}

impl Matrix3 {
    /// The identity matrix.
    pub fn identity() -> (m: Matrix3)
        ensures
            m == Matrix3::spec_identity(),
    {
        let o = Fx { raw: FX_ONE };
        let z = Fx { raw: 0 };
        Matrix3 { m11: o, m12: z, m13: z, m21: z, m22: o, m23: z, m31: z, m32: z, m33: o }
    }

    /// The identity matrix.
    pub open spec fn spec_identity() -> Matrix3 {
        Matrix3 {
            m11: Fx { raw: FX_ONE as i64 },
            m12: Fx { raw: 0 },
            m13: Fx { raw: 0 },
            m21: Fx { raw: 0 },
            m22: Fx { raw: FX_ONE as i64 },
            m23: Fx { raw: 0 },
            m31: Fx { raw: 0 },
            m32: Fx { raw: 0 },
            m33: Fx { raw: FX_ONE as i64 },
        }
    }
}

/// A 4 x 4 matrix of fixed-point scalars, row by row: `mRC` is row R,
/// column C.
#[derive(Clone, Copy, Debug, PartialEq, Eq, Structural)]
pub struct Matrix4 {
    /// Row 1, column 1.
    pub m11: Fx,
    /// Row 1, column 2.
    pub m12: Fx,
    /// Row 1, column 3.
    pub m13: Fx,
    /// Row 1, column 4.
    pub m14: Fx,
    /// Row 2, column 1.
    pub m21: Fx,
    /// Row 2, column 2.
    pub m22: Fx,
    /// Row 2, column 3.
    pub m23: Fx,
    /// Row 2, column 4.
    pub m24: Fx,
    /// Row 3, column 1.
    pub m31: Fx,
    /// Row 3, column 2.
    pub m32: Fx,
    /// Row 3, column 3.
    pub m33: Fx,
    /// Row 3, column 4.
    pub m34: Fx,
    /// Row 4, column 1.
    pub m41: Fx,
    /// Row 4, column 2.
    pub m42: Fx,
    /// Row 4, column 3.
    pub m43: Fx,
    /// Row 4, column 4.
    pub m44: Fx,
}

impl Matrix4 {
    /// The all-zero matrix; also what `Default` gives.
    pub open spec fn spec_zeros() -> Matrix4 {
        Matrix4 {
            m11: Fx { raw: 0 },
            m12: Fx { raw: 0 },
            m13: Fx { raw: 0 },
            m14: Fx { raw: 0 },
            m21: Fx { raw: 0 },
            m22: Fx { raw: 0 },
            m23: Fx { raw: 0 },
            m24: Fx { raw: 0 },
            m31: Fx { raw: 0 },
            m32: Fx { raw: 0 },
            m33: Fx { raw: 0 },
            m34: Fx { raw: 0 },
            m41: Fx { raw: 0 },
            m42: Fx { raw: 0 },
            m43: Fx { raw: 0 },
            m44: Fx { raw: 0 },
        }
    }

    /// The identity matrix.
    pub open spec fn spec_identity() -> Matrix4 {
        Matrix4 {
            m11: Fx { raw: FX_ONE as i64 },
            m12: Fx { raw: 0 },
            m13: Fx { raw: 0 },
            m14: Fx { raw: 0 },
            m21: Fx { raw: 0 },
            m22: Fx { raw: FX_ONE as i64 },
            m23: Fx { raw: 0 },
            m24: Fx { raw: 0 },
            m31: Fx { raw: 0 },
            m32: Fx { raw: 0 },
            m33: Fx { raw: FX_ONE as i64 },
            m34: Fx { raw: 0 },
            m41: Fx { raw: 0 },
            m42: Fx { raw: 0 },
            m43: Fx { raw: 0 },
            m44: Fx { raw: FX_ONE as i64 },
        }
    }

    /// The identity matrix.
    pub fn identity() -> (m: Matrix4)
        ensures
            m == Matrix4::spec_identity(),
    {
        let o = Fx { raw: FX_ONE };
        let z = Fx { raw: 0 };
        Matrix4 {
            m11: o,
            m12: z,
            m13: z,
            m14: z,
            m21: z,
            m22: o,
            m23: z,
            m24: z,
            m31: z,
            m32: z,
            m33: o,
            m34: z,
            m41: z,
            m42: z,
            m43: z,
            m44: o,
        }
    }

    /// Every entry, within `bound` raw steps of zero: the dynamic range
    /// on which matrix arithmetic is exact.
    pub open spec fn in_range(self, bound: int) -> bool {
        &&& crate::fixed::abs_int(self.m11.raw as int) <= bound
        &&& crate::fixed::abs_int(self.m12.raw as int) <= bound
        &&& crate::fixed::abs_int(self.m13.raw as int) <= bound
        &&& crate::fixed::abs_int(self.m14.raw as int) <= bound
        &&& crate::fixed::abs_int(self.m21.raw as int) <= bound
        &&& crate::fixed::abs_int(self.m22.raw as int) <= bound
        &&& crate::fixed::abs_int(self.m23.raw as int) <= bound
        &&& crate::fixed::abs_int(self.m24.raw as int) <= bound
        &&& crate::fixed::abs_int(self.m31.raw as int) <= bound
        &&& crate::fixed::abs_int(self.m32.raw as int) <= bound
        &&& crate::fixed::abs_int(self.m33.raw as int) <= bound
        &&& crate::fixed::abs_int(self.m34.raw as int) <= bound
        &&& crate::fixed::abs_int(self.m41.raw as int) <= bound
        &&& crate::fixed::abs_int(self.m42.raw as int) <= bound
        &&& crate::fixed::abs_int(self.m43.raw as int) <= bound
        &&& crate::fixed::abs_int(self.m44.raw as int) <= bound
    }
}

impl Default for Matrix4 {
    /// The all-zero matrix, as the engine's linear algebra defaults to.
    fn default() -> (m: Matrix4)
        ensures
            m == Matrix4::spec_zeros(),
    {
        let z = Fx { raw: 0 };
        Matrix4 {
            m11: z,
            m12: z,
            m13: z,
            m14: z,
            m21: z,
            m22: z,
            m23: z,
            m24: z,
            m31: z,
            m32: z,
            m33: z,
            m34: z,
            m41: z,
            m42: z,
            m43: z,
            m44: z,
        }
    }
}

/// Truncated-toward-zero integer quotient.
pub open spec fn trunc_div(a: int, b: int) -> int {
    if (a >= 0) == (b >= 0) {
        abs_int(a) / abs_int(b)
    } else {
        -(abs_int(a) / abs_int(b))
    }
}

/// Exact product of two bounded raw entries.
fn wide2(x: i64, y: i64) -> (r: i128)
    requires
        abs_int(x as int) <= 0x4000_0000,
        abs_int(y as int) <= 0x4000_0000,
    ensures
        r == x * y,
        abs_int(r as int) <= 0x1000_0000_0000_0000,
{
    proof {
        assert(abs_int((x as int) * (y as int)) <= 0x1000_0000_0000_0000int
            && -0x1000_0000_0000_0000 <= (x as int) * (y as int) <= 0x1000_0000_0000_0000int)
            by (nonlinear_arith)
            requires
                abs_int(x as int) <= 0x4000_0000,
                abs_int(y as int) <= 0x4000_0000,
        ;
    }
    (x as i128) * (y as i128)
}

/// Exact product of a bounded raw entry with a bounded pair determinant.
fn wide_sc(x: i128, y: i128) -> (r: i128)
    requires
        abs_int(x as int) <= 0x2000_0000_0000_0000,
        abs_int(y as int) <= 0x2000_0000_0000_0000,
    ensures
        r == x * y,
        abs_int(r as int) <= 0x2000_0000_0000_0000 * 0x2000_0000_0000_0000,
{
    proof {
        assert(abs_int((x as int) * (y as int)) <= 0x2000_0000_0000_0000
            * 0x2000_0000_0000_0000 && -(0x2000_0000_0000_0000 * 0x2000_0000_0000_0000) <= (
        x as int) * (y as int) <= 0x2000_0000_0000_0000 * 0x2000_0000_0000_0000)
            by (nonlinear_arith)
            requires
                abs_int(x as int) <= 0x2000_0000_0000_0000,
                abs_int(y as int) <= 0x2000_0000_0000_0000,
        ;
    }
    x * y
}

/// Exact product of a raw entry with a pair determinant.
fn wide_ac(x: i64, y: i128) -> (r: i128)
    requires
        abs_int(x as int) <= 0x4000_0000,
        abs_int(y as int) <= 0x2000_0000_0000_0000,
    ensures
        r == x * y,
        abs_int(r as int) <= 0x4000_0000 * 0x2000_0000_0000_0000,
{
    proof {
        assert(abs_int((x as int) * (y as int)) <= 0x4000_0000 * 0x2000_0000_0000_0000 && -(
        0x4000_0000 * 0x2000_0000_0000_0000) <= (x as int) * (y as int) <= 0x4000_0000
            * 0x2000_0000_0000_0000) by (nonlinear_arith)
            requires
                abs_int(x as int) <= 0x4000_0000,
                abs_int(y as int) <= 0x2000_0000_0000_0000,
        ;
    }
    (x as i128) * y
}

/// Truncated-toward-zero division of wide intermediates.
fn trunc_div_i128(a: i128, b: i128) -> (r: i128)
    requires
        b != 0,
        a != i128::MIN,
        b != i128::MIN,
    ensures
        r == trunc_div(a as int, b as int),
        abs_int(r as int) <= abs_int(a as int),
{
    let am: u128 = if a < 0 {
        (-a) as u128
    } else {
        a as u128
    };
    let bm: u128 = if b < 0 {
        (-b) as u128
    } else {
        b as u128
    };
    let q: u128 = am / bm;
    proof {
        assert(am / bm <= am) by (nonlinear_arith)
            requires
                bm >= 1,
        ;
    }
    if (a >= 0) == (b >= 0) {
        q as i128
    } else {
        -(q as i128)
    }
}

/// The fixed-point inverse of a 4 x 4 matrix by the adjugate rule, exact
/// over the raw representation: entry `(r, c)` of the result is the
/// cofactor-transpose entry scaled by the square of the unit and divided
/// by the raw determinant, truncated toward zero. The inverse exists only
/// when the determinant is nonzero and every resulting entry fits the raw
/// range.
pub open spec fn spec_try_inverse(m: Matrix4) -> Option<Matrix4> {
    let a11 = m.m11.raw as int;
    let a12 = m.m12.raw as int;
    let a13 = m.m13.raw as int;
    let a14 = m.m14.raw as int;
    let a21 = m.m21.raw as int;
    let a22 = m.m22.raw as int;
    let a23 = m.m23.raw as int;
    let a24 = m.m24.raw as int;
    let a31 = m.m31.raw as int;
    let a32 = m.m32.raw as int;
    let a33 = m.m33.raw as int;
    let a34 = m.m34.raw as int;
    let a41 = m.m41.raw as int;
    let a42 = m.m42.raw as int;
    let a43 = m.m43.raw as int;
    let a44 = m.m44.raw as int;
    let s0 = a11*a22 - a12*a21;
    let s1 = a11*a23 - a13*a21;
    let s2 = a11*a24 - a14*a21;
    let s3 = a12*a23 - a13*a22;
    let s4 = a12*a24 - a14*a22;
    let s5 = a13*a24 - a14*a23;
    let c5 = a33*a44 - a34*a43;
    let c4 = a32*a44 - a34*a42;
    let c3 = a32*a43 - a33*a42;
    let c2 = a31*a44 - a34*a41;
    let c1 = a31*a43 - a33*a41;
    let c0 = a31*a42 - a32*a41;
    let det = s0*c5 - s1*c4 + s2*c3 + s3*c2 - s4*c1 + s5*c0;
    if det == 0 {
        Option::None
    } else {
    let b11 = a22*c5 - a23*c4 + a24*c3;
    let b12 = a13*c4 - a12*c5 - a14*c3;
    let b13 = a42*s5 - a43*s4 + a44*s3;
    let b14 = a33*s4 - a32*s5 - a34*s3;
    let b21 = a23*c2 - a21*c5 - a24*c1;
    let b22 = a11*c5 - a13*c2 + a14*c1;
    let b23 = a43*s2 - a41*s5 - a44*s1;
    let b24 = a31*s5 - a33*s2 + a34*s1;
    let b31 = a21*c4 - a22*c2 + a24*c0;
    let b32 = a12*c2 - a11*c4 - a14*c0;
    let b33 = a41*s4 - a42*s2 + a44*s0;
    let b34 = a32*s2 - a31*s4 - a34*s0;
    let b41 = a22*c1 - a21*c3 - a23*c0;
    let b42 = a11*c3 - a12*c1 + a13*c0;
    let b43 = a42*s1 - a41*s3 - a43*s0;
    let b44 = a31*s3 - a32*s1 + a33*s0;
    let q11 = trunc_div(b11 * 0x1_0000_0000, det);
    let q12 = trunc_div(b12 * 0x1_0000_0000, det);
    let q13 = trunc_div(b13 * 0x1_0000_0000, det);
    let q14 = trunc_div(b14 * 0x1_0000_0000, det);
    let q21 = trunc_div(b21 * 0x1_0000_0000, det);
    let q22 = trunc_div(b22 * 0x1_0000_0000, det);
    let q23 = trunc_div(b23 * 0x1_0000_0000, det);
    let q24 = trunc_div(b24 * 0x1_0000_0000, det);
    let q31 = trunc_div(b31 * 0x1_0000_0000, det);
    let q32 = trunc_div(b32 * 0x1_0000_0000, det);
    let q33 = trunc_div(b33 * 0x1_0000_0000, det);
    let q34 = trunc_div(b34 * 0x1_0000_0000, det);
    let q41 = trunc_div(b41 * 0x1_0000_0000, det);
    let q42 = trunc_div(b42 * 0x1_0000_0000, det);
    let q43 = trunc_div(b43 * 0x1_0000_0000, det);
    let q44 = trunc_div(b44 * 0x1_0000_0000, det);
        if abs_int(q11) <= i64::MAX && abs_int(q12) <= i64::MAX && abs_int(q13) <= i64::MAX && abs_int(q14) <= i64::MAX && abs_int(q21) <= i64::MAX && abs_int(q22) <= i64::MAX && abs_int(q23) <= i64::MAX && abs_int(q24) <= i64::MAX && abs_int(q31) <= i64::MAX && abs_int(q32) <= i64::MAX && abs_int(q33) <= i64::MAX && abs_int(q34) <= i64::MAX && abs_int(q41) <= i64::MAX && abs_int(q42) <= i64::MAX && abs_int(q43) <= i64::MAX && abs_int(q44) <= i64::MAX {
            Option::Some(Matrix4 {
            m11: Fx { raw: q11 as i64 },
            m12: Fx { raw: q12 as i64 },
            m13: Fx { raw: q13 as i64 },
            m14: Fx { raw: q14 as i64 },
            m21: Fx { raw: q21 as i64 },
            m22: Fx { raw: q22 as i64 },
            m23: Fx { raw: q23 as i64 },
            m24: Fx { raw: q24 as i64 },
            m31: Fx { raw: q31 as i64 },
            m32: Fx { raw: q32 as i64 },
            m33: Fx { raw: q33 as i64 },
            m34: Fx { raw: q34 as i64 },
            m41: Fx { raw: q41 as i64 },
            m42: Fx { raw: q42 as i64 },
            m43: Fx { raw: q43 as i64 },
            m44: Fx { raw: q44 as i64 },
            })
        } else {
            Option::None
        }
    }
}

impl Matrix4 {
    /// Inverts the matrix by the adjugate rule when an exact fixed-point
    /// inverse representation exists: the determinant is nonzero and no
    /// resulting entry overflows. Exact over the raw representation;
    /// entries must lie in the documented dynamic range.
    #[verifier::rlimit(100)]
    #[verifier::spinoff_prover]
    pub fn try_inverse(&self) -> (r: Option<Matrix4>)
        requires
            self.in_range(0x4000_0000),
        ensures
            r == spec_try_inverse(*self),
    {
        let a11: i64 = self.m11.raw;
        let a12: i64 = self.m12.raw;
        let a13: i64 = self.m13.raw;
        let a14: i64 = self.m14.raw;
        let a21: i64 = self.m21.raw;
        let a22: i64 = self.m22.raw;
        let a23: i64 = self.m23.raw;
        let a24: i64 = self.m24.raw;
        let a31: i64 = self.m31.raw;
        let a32: i64 = self.m32.raw;
        let a33: i64 = self.m33.raw;
        let a34: i64 = self.m34.raw;
        let a41: i64 = self.m41.raw;
        let a42: i64 = self.m42.raw;
        let a43: i64 = self.m43.raw;
        let a44: i64 = self.m44.raw;
        let s0: i128 = wide2(a11, a22) - wide2(a12, a21);
        let s1: i128 = wide2(a11, a23) - wide2(a13, a21);
        let s2: i128 = wide2(a11, a24) - wide2(a14, a21);
        let s3: i128 = wide2(a12, a23) - wide2(a13, a22);
        let s4: i128 = wide2(a12, a24) - wide2(a14, a22);
        let s5: i128 = wide2(a13, a24) - wide2(a14, a23);
        let c5: i128 = wide2(a33, a44) - wide2(a34, a43);
        let c4: i128 = wide2(a32, a44) - wide2(a34, a42);
        let c3: i128 = wide2(a32, a43) - wide2(a33, a42);
        let c2: i128 = wide2(a31, a44) - wide2(a34, a41);
        let c1: i128 = wide2(a31, a43) - wide2(a33, a41);
        let c0: i128 = wide2(a31, a42) - wide2(a32, a41);
        let det: i128 = wide_sc(s0, c5) - wide_sc(s1, c4) + wide_sc(s2, c3) + wide_sc(s3, c2) - wide_sc(s4, c1) + wide_sc(s5, c0);
        if det == 0 {
            return Option::None;
        }
        let b11: i128 = wide_ac(a22, c5) - wide_ac(a23, c4) + wide_ac(a24, c3);
        let b12: i128 = - wide_ac(a12, c5) + wide_ac(a13, c4) - wide_ac(a14, c3);
        let b13: i128 = wide_ac(a42, s5) - wide_ac(a43, s4) + wide_ac(a44, s3);
        let b14: i128 = - wide_ac(a32, s5) + wide_ac(a33, s4) - wide_ac(a34, s3);
        let b21: i128 = - wide_ac(a21, c5) + wide_ac(a23, c2) - wide_ac(a24, c1);
        let b22: i128 = wide_ac(a11, c5) - wide_ac(a13, c2) + wide_ac(a14, c1);
        let b23: i128 = - wide_ac(a41, s5) + wide_ac(a43, s2) - wide_ac(a44, s1);
        let b24: i128 = wide_ac(a31, s5) - wide_ac(a33, s2) + wide_ac(a34, s1);
        let b31: i128 = wide_ac(a21, c4) - wide_ac(a22, c2) + wide_ac(a24, c0);
        let b32: i128 = - wide_ac(a11, c4) + wide_ac(a12, c2) - wide_ac(a14, c0);
        let b33: i128 = wide_ac(a41, s4) - wide_ac(a42, s2) + wide_ac(a44, s0);
        let b34: i128 = - wide_ac(a31, s4) + wide_ac(a32, s2) - wide_ac(a34, s0);
        let b41: i128 = - wide_ac(a21, c3) + wide_ac(a22, c1) - wide_ac(a23, c0);
        let b42: i128 = wide_ac(a11, c3) - wide_ac(a12, c1) + wide_ac(a13, c0);
        let b43: i128 = - wide_ac(a41, s3) + wide_ac(a42, s1) - wide_ac(a43, s0);
        let b44: i128 = wide_ac(a31, s3) - wide_ac(a32, s1) + wide_ac(a33, s0);
        let q11: i128 = trunc_div_i128(b11 * 0x1_0000_0000, det);
        let q12: i128 = trunc_div_i128(b12 * 0x1_0000_0000, det);
        let q13: i128 = trunc_div_i128(b13 * 0x1_0000_0000, det);
        let q14: i128 = trunc_div_i128(b14 * 0x1_0000_0000, det);
        let q21: i128 = trunc_div_i128(b21 * 0x1_0000_0000, det);
        let q22: i128 = trunc_div_i128(b22 * 0x1_0000_0000, det);
        let q23: i128 = trunc_div_i128(b23 * 0x1_0000_0000, det);
        let q24: i128 = trunc_div_i128(b24 * 0x1_0000_0000, det);
        let q31: i128 = trunc_div_i128(b31 * 0x1_0000_0000, det);
        let q32: i128 = trunc_div_i128(b32 * 0x1_0000_0000, det);
        let q33: i128 = trunc_div_i128(b33 * 0x1_0000_0000, det);
        let q34: i128 = trunc_div_i128(b34 * 0x1_0000_0000, det);
        let q41: i128 = trunc_div_i128(b41 * 0x1_0000_0000, det);
        let q42: i128 = trunc_div_i128(b42 * 0x1_0000_0000, det);
        let q43: i128 = trunc_div_i128(b43 * 0x1_0000_0000, det);
        let q44: i128 = trunc_div_i128(b44 * 0x1_0000_0000, det);
        let MAXQ: i128 = i64::MAX as i128;
        if q11 <= MAXQ && q11 >= -MAXQ && q12 <= MAXQ && q12 >= -MAXQ && q13 <= MAXQ && q13 >= -MAXQ && q14 <= MAXQ && q14 >= -MAXQ && q21 <= MAXQ && q21 >= -MAXQ && q22 <= MAXQ && q22 >= -MAXQ && q23 <= MAXQ && q23 >= -MAXQ && q24 <= MAXQ && q24 >= -MAXQ && q31 <= MAXQ && q31 >= -MAXQ && q32 <= MAXQ && q32 >= -MAXQ && q33 <= MAXQ && q33 >= -MAXQ && q34 <= MAXQ && q34 >= -MAXQ && q41 <= MAXQ && q41 >= -MAXQ && q42 <= MAXQ && q42 >= -MAXQ && q43 <= MAXQ && q43 >= -MAXQ && q44 <= MAXQ && q44 >= -MAXQ {
            Option::Some(Matrix4 {
                m11: Fx { raw: q11 as i64 },
                m12: Fx { raw: q12 as i64 },
                m13: Fx { raw: q13 as i64 },
                m14: Fx { raw: q14 as i64 },
                m21: Fx { raw: q21 as i64 },
                m22: Fx { raw: q22 as i64 },
                m23: Fx { raw: q23 as i64 },
                m24: Fx { raw: q24 as i64 },
                m31: Fx { raw: q31 as i64 },
                m32: Fx { raw: q32 as i64 },
                m33: Fx { raw: q33 as i64 },
                m34: Fx { raw: q34 as i64 },
                m41: Fx { raw: q41 as i64 },
                m42: Fx { raw: q42 as i64 },
                m43: Fx { raw: q43 as i64 },
                m44: Fx { raw: q44 as i64 },
            })
        } else {
            Option::None
        }
    }
}

/// A fixed-point product within the bounded dynamic range: exact value,
/// bounded magnitude.
fn fx_mul_bounded(a: Fx, b: Fx) -> (r: Fx)
    requires
        abs_int(a.raw as int) <= 0x4000_0000,
        abs_int(b.raw as int) <= 0x4000_0000,
    ensures
        r.raw == fx_mul_spec(a.raw as int, b.raw as int),
        abs_int(r.raw as int) <= 0x1000_0000_0000,
{
    proof {
        lemma_fx_mul_bound(a.raw as int, b.raw as int, 0x4000_0000, 0x4000_0000);
        assert(0x4000_0000int * 0x4000_0000int / (FX_ONE as int) == 0x1000_0000_0000int);
    }
    a.mul_fx(b)
}

/// Magnitude bound of a fixed-point product from magnitude bounds of its
/// factors.
proof fn lemma_fx_mul_bound(a: int, b: int, ba: int, bb: int)
    requires
        0 <= ba,
        0 <= bb,
        abs_int(a) <= ba,
        abs_int(b) <= bb,
    ensures
        abs_int(fx_mul_spec(a, b)) <= ba * bb / (FX_ONE as int),
        -(ba * bb) <= fx_mul_spec(a, b) <= ba * bb,
{
    assert(abs_int(a) * abs_int(b) <= ba * bb) by (nonlinear_arith)
        requires
            0 <= abs_int(a) <= ba,
            0 <= abs_int(b) <= bb,
    ;
    vstd::arithmetic::div_mod::lemma_div_is_ordered(
        abs_int(a) * abs_int(b),
        ba * bb,
        FX_ONE as int,
    );
    assert(abs_int(a) * abs_int(b) / (FX_ONE as int) <= abs_int(a) * abs_int(b))
        by (nonlinear_arith)
        requires
            abs_int(a) * abs_int(b) >= 0,
    ;
    assert(ba * bb / (FX_ONE as int) <= ba * bb) by (nonlinear_arith)
        requires
            ba * bb >= 0,
    ;
    assert(abs_int(a) * abs_int(b) / (FX_ONE as int) >= 0) by (nonlinear_arith)
        requires
            abs_int(a) * abs_int(b) >= 0,
    ;
}

/// Magnitude bound of a fixed-point quotient: dividing by a nonzero raw
/// value cannot grow the scaled numerator.
proof fn lemma_fx_div_bound(a: int, b: int, ba: int)
    requires
        0 <= ba,
        abs_int(a) <= ba,
        b != 0,
    ensures
        abs_int(fx_div_spec(a, b)) <= ba * (FX_ONE as int),
        -(ba * (FX_ONE as int)) <= fx_div_spec(a, b) <= ba * (FX_ONE as int),
{
    assert(abs_int(b) >= 1);
    assert(abs_int(a) * (FX_ONE as int) <= ba * (FX_ONE as int)) by (nonlinear_arith)
        requires
            0 <= abs_int(a) <= ba,
    ;
    assert(abs_int(a) * (FX_ONE as int) / abs_int(b) <= abs_int(a) * (FX_ONE as int))
        by (nonlinear_arith)
        requires
            abs_int(a) * (FX_ONE as int) >= 0,
            abs_int(b) >= 1,
    ;
    assert(abs_int(a) * (FX_ONE as int) / abs_int(b) >= 0) by (nonlinear_arith)
        requires
            abs_int(a) * (FX_ONE as int) >= 0,
            abs_int(b) >= 1,
    ;
    vstd::arithmetic::div_mod::lemma_div_is_ordered(
        abs_int(a) * (FX_ONE as int),
        ba * (FX_ONE as int),
        abs_int(b),
    );
    assert(ba * (FX_ONE as int) / abs_int(b) <= ba * (FX_ONE as int)) by (nonlinear_arith)
        requires
            ba * (FX_ONE as int) >= 0,
            abs_int(b) >= 1,
    ;
}

/// A fixed-point quotient within the bounded dynamic range.
fn fx_div_bounded(a: Fx, b: Fx) -> (r: Fx)
    requires
        abs_int(a.raw as int) <= 0x8000_0000,
        b.raw != 0,
    ensures
        r.raw == fx_div_spec(a.raw as int, b.raw as int),
        abs_int(r.raw as int) <= 0x8000_0000 * 0x1_0000,
{
    proof {
        lemma_fx_div_bound(a.raw as int, b.raw as int, 0x8000_0000);
    }
    a.div_fx(b)
}

impl Matrix4 {
    /// The orthographic projection onto the box `[left, right] x [bottom,
    /// top] x [znear, zfar]`, exact in fixed point.
    pub fn new_orthographic(left: Fx, right: Fx, bottom: Fx, top: Fx, znear: Fx, zfar: Fx) -> (r:
        Matrix4)
        requires
            abs_int(left.raw as int) <= 0x4000_0000,
            abs_int(right.raw as int) <= 0x4000_0000,
            abs_int(bottom.raw as int) <= 0x4000_0000,
            abs_int(top.raw as int) <= 0x4000_0000,
            abs_int(znear.raw as int) <= 0x4000_0000,
            abs_int(zfar.raw as int) <= 0x4000_0000,
            right.raw != left.raw,
            top.raw != bottom.raw,
            zfar.raw != znear.raw,
        ensures
            r.m11.raw == fx_div_spec(2 * FX_ONE, right.raw - left.raw),
            r.m22.raw == fx_div_spec(2 * FX_ONE, top.raw - bottom.raw),
            r.m33.raw == fx_div_spec(-2 * FX_ONE, zfar.raw - znear.raw),
            r.m14.raw == fx_div_spec(-(right.raw + left.raw), right.raw - left.raw),
            r.m24.raw == fx_div_spec(-(top.raw + bottom.raw), top.raw - bottom.raw),
            r.m34.raw == fx_div_spec(-(zfar.raw + znear.raw), zfar.raw - znear.raw),
            r.m44.raw == FX_ONE,
            r.m12.raw == 0 && r.m13.raw == 0 && r.m21.raw == 0 && r.m23.raw == 0,
            r.m31.raw == 0 && r.m32.raw == 0 && r.m41.raw == 0 && r.m42.raw == 0,
            r.m43.raw == 0,
    {
        let z = Fx { raw: 0 };
        let dx = right.sub_fx(left);
        let dy = top.sub_fx(bottom);
        let dz = zfar.sub_fx(znear);
        let two = Fx { raw: 2 * FX_ONE };
        let ntwo = Fx { raw: -2 * FX_ONE };
        let m11 = fx_div_bounded(two, dx);
        let m22 = fx_div_bounded(two, dy);
        let m33 = fx_div_bounded(ntwo, dz);
        let sx = Fx { raw: -(right.raw + left.raw) };
        let sy = Fx { raw: -(top.raw + bottom.raw) };
        let sz = Fx { raw: -(zfar.raw + znear.raw) };
        let m14 = fx_div_bounded(sx, dx);
        let m24 = fx_div_bounded(sy, dy);
        let m34 = fx_div_bounded(sz, dz);
        Matrix4 {
            m11,
            m12: z,
            m13: z,
            m14,
            m21: z,
            m22,
            m23: z,
            m24,
            m31: z,
            m32: z,
            m33,
            m34,
            m41: z,
            m42: z,
            m43: z,
            m44: Fx { raw: FX_ONE },
        }
    }

    /// The scaling matrix with the given diagonal.
    pub fn new_nonuniform_scaling(v: &Vector3) -> (r: Matrix4)
        ensures
            r.m11 == v.x,
            r.m22 == v.y,
            r.m33 == v.z,
            r.m44.raw == FX_ONE,
            r.m12.raw == 0 && r.m13.raw == 0 && r.m14.raw == 0 && r.m21.raw == 0,
            r.m23.raw == 0 && r.m24.raw == 0 && r.m31.raw == 0 && r.m32.raw == 0,
            r.m34.raw == 0 && r.m41.raw == 0 && r.m42.raw == 0 && r.m43.raw == 0,
    {
        let z = Fx { raw: 0 };
        Matrix4 {
            m11: v.x,
            m12: z,
            m13: z,
            m14: z,
            m21: z,
            m22: v.y,
            m23: z,
            m24: z,
            m31: z,
            m32: z,
            m33: v.z,
            m34: z,
            m41: z,
            m42: z,
            m43: z,
            m44: Fx { raw: FX_ONE },
        }
    }

    /// The matrix product `self * o`, exact in fixed point: each entry is
    /// the dot product of a row with a column, each factor product
    /// truncated toward zero.
    #[verifier::rlimit(60)]
    pub fn mul4(&self, o: &Matrix4) -> (r: Matrix4)
        requires
            self.in_range(0x4000_0000),
            o.in_range(0x4000_0000),
        ensures
            r.m11.raw == fx_mul_spec(self.m11.raw as int, o.m11.raw as int) + fx_mul_spec(self.m12.raw as int, o.m21.raw as int) + fx_mul_spec(self.m13.raw as int, o.m31.raw as int) + fx_mul_spec(self.m14.raw as int, o.m41.raw as int),
            r.m12.raw == fx_mul_spec(self.m11.raw as int, o.m12.raw as int) + fx_mul_spec(self.m12.raw as int, o.m22.raw as int) + fx_mul_spec(self.m13.raw as int, o.m32.raw as int) + fx_mul_spec(self.m14.raw as int, o.m42.raw as int),
            r.m13.raw == fx_mul_spec(self.m11.raw as int, o.m13.raw as int) + fx_mul_spec(self.m12.raw as int, o.m23.raw as int) + fx_mul_spec(self.m13.raw as int, o.m33.raw as int) + fx_mul_spec(self.m14.raw as int, o.m43.raw as int),
            r.m14.raw == fx_mul_spec(self.m11.raw as int, o.m14.raw as int) + fx_mul_spec(self.m12.raw as int, o.m24.raw as int) + fx_mul_spec(self.m13.raw as int, o.m34.raw as int) + fx_mul_spec(self.m14.raw as int, o.m44.raw as int),
            r.m21.raw == fx_mul_spec(self.m21.raw as int, o.m11.raw as int) + fx_mul_spec(self.m22.raw as int, o.m21.raw as int) + fx_mul_spec(self.m23.raw as int, o.m31.raw as int) + fx_mul_spec(self.m24.raw as int, o.m41.raw as int),
            r.m22.raw == fx_mul_spec(self.m21.raw as int, o.m12.raw as int) + fx_mul_spec(self.m22.raw as int, o.m22.raw as int) + fx_mul_spec(self.m23.raw as int, o.m32.raw as int) + fx_mul_spec(self.m24.raw as int, o.m42.raw as int),
            r.m23.raw == fx_mul_spec(self.m21.raw as int, o.m13.raw as int) + fx_mul_spec(self.m22.raw as int, o.m23.raw as int) + fx_mul_spec(self.m23.raw as int, o.m33.raw as int) + fx_mul_spec(self.m24.raw as int, o.m43.raw as int),
            r.m24.raw == fx_mul_spec(self.m21.raw as int, o.m14.raw as int) + fx_mul_spec(self.m22.raw as int, o.m24.raw as int) + fx_mul_spec(self.m23.raw as int, o.m34.raw as int) + fx_mul_spec(self.m24.raw as int, o.m44.raw as int),
            r.m31.raw == fx_mul_spec(self.m31.raw as int, o.m11.raw as int) + fx_mul_spec(self.m32.raw as int, o.m21.raw as int) + fx_mul_spec(self.m33.raw as int, o.m31.raw as int) + fx_mul_spec(self.m34.raw as int, o.m41.raw as int),
            r.m32.raw == fx_mul_spec(self.m31.raw as int, o.m12.raw as int) + fx_mul_spec(self.m32.raw as int, o.m22.raw as int) + fx_mul_spec(self.m33.raw as int, o.m32.raw as int) + fx_mul_spec(self.m34.raw as int, o.m42.raw as int),
            r.m33.raw == fx_mul_spec(self.m31.raw as int, o.m13.raw as int) + fx_mul_spec(self.m32.raw as int, o.m23.raw as int) + fx_mul_spec(self.m33.raw as int, o.m33.raw as int) + fx_mul_spec(self.m34.raw as int, o.m43.raw as int),
            r.m34.raw == fx_mul_spec(self.m31.raw as int, o.m14.raw as int) + fx_mul_spec(self.m32.raw as int, o.m24.raw as int) + fx_mul_spec(self.m33.raw as int, o.m34.raw as int) + fx_mul_spec(self.m34.raw as int, o.m44.raw as int),
            r.m41.raw == fx_mul_spec(self.m41.raw as int, o.m11.raw as int) + fx_mul_spec(self.m42.raw as int, o.m21.raw as int) + fx_mul_spec(self.m43.raw as int, o.m31.raw as int) + fx_mul_spec(self.m44.raw as int, o.m41.raw as int),
            r.m42.raw == fx_mul_spec(self.m41.raw as int, o.m12.raw as int) + fx_mul_spec(self.m42.raw as int, o.m22.raw as int) + fx_mul_spec(self.m43.raw as int, o.m32.raw as int) + fx_mul_spec(self.m44.raw as int, o.m42.raw as int),
            r.m43.raw == fx_mul_spec(self.m41.raw as int, o.m13.raw as int) + fx_mul_spec(self.m42.raw as int, o.m23.raw as int) + fx_mul_spec(self.m43.raw as int, o.m33.raw as int) + fx_mul_spec(self.m44.raw as int, o.m43.raw as int),
            r.m44.raw == fx_mul_spec(self.m41.raw as int, o.m14.raw as int) + fx_mul_spec(self.m42.raw as int, o.m24.raw as int) + fx_mul_spec(self.m43.raw as int, o.m34.raw as int) + fx_mul_spec(self.m44.raw as int, o.m44.raw as int),
    {
        let e11 = fx_mul_bounded(self.m11, o.m11).add_fx(fx_mul_bounded(self.m12, o.m21)).add_fx(fx_mul_bounded(self.m13, o.m31)).add_fx(fx_mul_bounded(self.m14, o.m41));
        let e12 = fx_mul_bounded(self.m11, o.m12).add_fx(fx_mul_bounded(self.m12, o.m22)).add_fx(fx_mul_bounded(self.m13, o.m32)).add_fx(fx_mul_bounded(self.m14, o.m42));
        let e13 = fx_mul_bounded(self.m11, o.m13).add_fx(fx_mul_bounded(self.m12, o.m23)).add_fx(fx_mul_bounded(self.m13, o.m33)).add_fx(fx_mul_bounded(self.m14, o.m43));
        let e14 = fx_mul_bounded(self.m11, o.m14).add_fx(fx_mul_bounded(self.m12, o.m24)).add_fx(fx_mul_bounded(self.m13, o.m34)).add_fx(fx_mul_bounded(self.m14, o.m44));
        let e21 = fx_mul_bounded(self.m21, o.m11).add_fx(fx_mul_bounded(self.m22, o.m21)).add_fx(fx_mul_bounded(self.m23, o.m31)).add_fx(fx_mul_bounded(self.m24, o.m41));
        let e22 = fx_mul_bounded(self.m21, o.m12).add_fx(fx_mul_bounded(self.m22, o.m22)).add_fx(fx_mul_bounded(self.m23, o.m32)).add_fx(fx_mul_bounded(self.m24, o.m42));
        let e23 = fx_mul_bounded(self.m21, o.m13).add_fx(fx_mul_bounded(self.m22, o.m23)).add_fx(fx_mul_bounded(self.m23, o.m33)).add_fx(fx_mul_bounded(self.m24, o.m43));
        let e24 = fx_mul_bounded(self.m21, o.m14).add_fx(fx_mul_bounded(self.m22, o.m24)).add_fx(fx_mul_bounded(self.m23, o.m34)).add_fx(fx_mul_bounded(self.m24, o.m44));
        let e31 = fx_mul_bounded(self.m31, o.m11).add_fx(fx_mul_bounded(self.m32, o.m21)).add_fx(fx_mul_bounded(self.m33, o.m31)).add_fx(fx_mul_bounded(self.m34, o.m41));
        let e32 = fx_mul_bounded(self.m31, o.m12).add_fx(fx_mul_bounded(self.m32, o.m22)).add_fx(fx_mul_bounded(self.m33, o.m32)).add_fx(fx_mul_bounded(self.m34, o.m42));
        let e33 = fx_mul_bounded(self.m31, o.m13).add_fx(fx_mul_bounded(self.m32, o.m23)).add_fx(fx_mul_bounded(self.m33, o.m33)).add_fx(fx_mul_bounded(self.m34, o.m43));
        let e34 = fx_mul_bounded(self.m31, o.m14).add_fx(fx_mul_bounded(self.m32, o.m24)).add_fx(fx_mul_bounded(self.m33, o.m34)).add_fx(fx_mul_bounded(self.m34, o.m44));
        let e41 = fx_mul_bounded(self.m41, o.m11).add_fx(fx_mul_bounded(self.m42, o.m21)).add_fx(fx_mul_bounded(self.m43, o.m31)).add_fx(fx_mul_bounded(self.m44, o.m41));
        let e42 = fx_mul_bounded(self.m41, o.m12).add_fx(fx_mul_bounded(self.m42, o.m22)).add_fx(fx_mul_bounded(self.m43, o.m32)).add_fx(fx_mul_bounded(self.m44, o.m42));
        let e43 = fx_mul_bounded(self.m41, o.m13).add_fx(fx_mul_bounded(self.m42, o.m23)).add_fx(fx_mul_bounded(self.m43, o.m33)).add_fx(fx_mul_bounded(self.m44, o.m43));
        let e44 = fx_mul_bounded(self.m41, o.m14).add_fx(fx_mul_bounded(self.m42, o.m24)).add_fx(fx_mul_bounded(self.m43, o.m34)).add_fx(fx_mul_bounded(self.m44, o.m44));
        Matrix4 {
            m11: e11,
            m12: e12,
            m13: e13,
            m14: e14,
            m21: e21,
            m22: e22,
            m23: e23,
            m24: e24,
            m31: e31,
            m32: e32,
            m33: e33,
            m34: e34,
            m41: e41,
            m42: e42,
            m43: e43,
            m44: e44,
        }
    }

    /// Where the matrix sends a point, assuming an affine bottom row: the
    /// linear part times the point, plus the translation column.
    pub open spec fn spec_transform_point(self, p: Vector3) -> Vector3 {
        Vector3 {
            x: Fx {
                raw: (fx_mul_spec(self.m11.raw as int, p.x.raw as int) + fx_mul_spec(
                    self.m12.raw as int,
                    p.y.raw as int,
                ) + fx_mul_spec(self.m13.raw as int, p.z.raw as int) + self.m14.raw) as i64,
            },
            y: Fx {
                raw: (fx_mul_spec(self.m21.raw as int, p.x.raw as int) + fx_mul_spec(
                    self.m22.raw as int,
                    p.y.raw as int,
                ) + fx_mul_spec(self.m23.raw as int, p.z.raw as int) + self.m24.raw) as i64,
            },
            z: Fx {
                raw: (fx_mul_spec(self.m31.raw as int, p.x.raw as int) + fx_mul_spec(
                    self.m32.raw as int,
                    p.y.raw as int,
                ) + fx_mul_spec(self.m33.raw as int, p.z.raw as int) + self.m34.raw) as i64,
            },
        }
    }

    /// Applies the matrix to a point, assuming an affine bottom row (as
    /// every scene transform has): the linear part times the point, plus
    /// the translation column.
    pub fn transform_point(&self, p: &Vector3) -> (r: Vector3)
        requires
            self.in_range(0x4000_0000),
            abs_int(p.x.raw as int) <= 0x4000_0000,
            abs_int(p.y.raw as int) <= 0x4000_0000,
            abs_int(p.z.raw as int) <= 0x4000_0000,
        ensures
            r == self.spec_transform_point(*p),
    {
        let x = fx_mul_bounded(self.m11, p.x).add_fx(fx_mul_bounded(self.m12, p.y)).add_fx(
            fx_mul_bounded(self.m13, p.z),
        ).add_fx(self.m14);
        let y = fx_mul_bounded(self.m21, p.x).add_fx(fx_mul_bounded(self.m22, p.y)).add_fx(
            fx_mul_bounded(self.m23, p.z),
        ).add_fx(self.m24);
        let z = fx_mul_bounded(self.m31, p.x).add_fx(fx_mul_bounded(self.m32, p.y)).add_fx(
            fx_mul_bounded(self.m33, p.z),
        ).add_fx(self.m34);
        Vector3 { x, y, z }
    }
}

} // verus!
