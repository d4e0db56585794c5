//! Signed 16.16 fixed-point scalars. Every non-integer quantity of the
//! engine (radii, matrix entries, texture coordinates, style metrics) is a
//! [`Fx`]: an `i64` count of 1/65536 steps. All operations are exact
//! integer arithmetic with truncation toward zero, so their results are
//! fully determined by their arguments.

use vstd::prelude::*;

verus! {

/// Raw representation of 1.0: one whole unit is this many raw steps.
pub const FX_ONE: i64 = 65536;

/// A signed 16.16 fixed-point number; `raw` counts 1/65536 steps.
#[derive(Clone, Copy, Debug, PartialEq, Eq, Structural)]
pub struct Fx {
    /// The underlying count of 1/65536 steps.
    pub raw: i64,
}

/// Absolute value of a mathematical integer.
pub open spec fn abs_int(v: int) -> int {
    if v < 0 {
        -v
    } else {
        v
    }
}

/// Product of two fixed-point numbers, truncated toward zero.
pub open spec fn fx_mul_spec(a: int, b: int) -> int {
    if a * b >= 0 {
        (abs_int(a) * abs_int(b)) / (FX_ONE as int)
    } else {
        -((abs_int(a) * abs_int(b)) / (FX_ONE as int))
    }
}

/// Quotient of two fixed-point numbers, truncated toward zero.
pub open spec fn fx_div_spec(a: int, b: int) -> int {
    if (a >= 0) == (b >= 0) {
        (abs_int(a) * (FX_ONE as int)) / abs_int(b)
    } else {
        -((abs_int(a) * (FX_ONE as int)) / abs_int(b))
    }
}

/// Magnitude of an `i64` as a `u128`; total, including `i64::MIN`.
fn mag_u128(v: i64) -> (r: u128)
    ensures
        r == abs_int(v as int),
{
    if v < 0 {
        (-(v as i128)) as u128
    } else {
        v as u128
    }
}

impl Fx {
    /// The zero scalar.
    pub fn zero() -> (r: Fx)
        ensures
            r.raw == 0,
    {
        Fx { raw: 0 }
    }

    /// The scalar 1.0.
    pub fn one() -> (r: Fx)
        ensures
            r.raw == FX_ONE,
    {
        Fx { raw: FX_ONE }
    }

    /// Builds the scalar equal to the integer `v`.
    pub fn from_int(v: i32) -> (r: Fx)
        ensures
            r.raw == v * FX_ONE,
    {
        Fx { raw: (v as i64) * FX_ONE }
    }

    /// Wraps a raw step count.
    pub fn from_raw(raw: i64) -> (r: Fx)
        ensures
            r.raw == raw,
    {
        Fx { raw }
    }

    /// Absolute value.
    pub fn abs(&self) -> (r: Fx)
        requires
            self.raw != i64::MIN,
        ensures
            r.raw == abs_int(self.raw as int),
    {
        if self.raw < 0 {
            Fx { raw: -self.raw }
        } else {
            Fx { raw: self.raw }
        }
    }

    /// Exact sum.
    pub fn add_fx(&self, o: Fx) -> (r: Fx)
        requires
            i64::MIN <= self.raw + o.raw <= i64::MAX,
        ensures
            r.raw == self.raw + o.raw,
    {
        Fx { raw: self.raw + o.raw }
    }

    /// Exact difference.
    pub fn sub_fx(&self, o: Fx) -> (r: Fx)
        requires
            i64::MIN <= self.raw - o.raw <= i64::MAX,
        ensures
            r.raw == self.raw - o.raw,
    {
        Fx { raw: self.raw - o.raw }
    }

    /// Product, truncated toward zero.
    pub fn mul_fx(&self, o: Fx) -> (r: Fx)
        requires
            i64::MIN <= fx_mul_spec(self.raw as int, o.raw as int) <= i64::MAX,
        ensures
            r.raw == fx_mul_spec(self.raw as int, o.raw as int),
    {
        let am = mag_u128(self.raw);
        let bm = mag_u128(o.raw);
        let q: u128 = (am * bm) / (FX_ONE as u128);
        let neg = (self.raw < 0) != (o.raw < 0);
        proof {
            lemma_sign_split(self.raw as int, o.raw as int);
        }
        if neg {
            Fx { raw: (-(q as i128)) as i64 }
        } else {
            Fx { raw: q as i64 }
        }
    }

    /// Quotient, truncated toward zero.
    pub fn div_fx(&self, o: Fx) -> (r: Fx)
        requires
            o.raw != 0,
            i64::MIN <= fx_div_spec(self.raw as int, o.raw as int) <= i64::MAX,
        ensures
            r.raw == fx_div_spec(self.raw as int, o.raw as int),
    {
        let am = mag_u128(self.raw);
        let bm = mag_u128(o.raw);
        let q: u128 = (am * (FX_ONE as u128)) / bm;
        let neg = (self.raw < 0) != (o.raw < 0);
        proof {
            lemma_sign_match(self.raw as int, o.raw as int);
        }
        if neg {
            Fx { raw: (-(q as i128)) as i64 }
        } else {
            Fx { raw: q as i64 }
        }
    }

}

/// The product of two integers is nonnegative exactly when their signs
/// match, and its magnitude is the product of their magnitudes.
proof fn lemma_sign_split(a: int, b: int)
    ensures
        abs_int(a * b) == abs_int(a) * abs_int(b),
        (a * b >= 0) ==> ((a < 0) == (b < 0) || a * b == 0),
        (a * b < 0) ==> ((a < 0) != (b < 0)),
        ((a < 0) != (b < 0)) && a != 0 && b != 0 ==> a * b < 0,
        ((a < 0) == (b < 0)) ==> a * b >= 0,
        a * b == 0 ==> a == 0 || b == 0,
{
    assert(abs_int(a * b) == abs_int(a) * abs_int(b)) by (nonlinear_arith);
    assert((a < 0) == (b < 0) ==> a * b >= 0) by (nonlinear_arith);
    assert(((a < 0) != (b < 0)) && a != 0 && b != 0 ==> a * b < 0) by (nonlinear_arith);
    assert(a * b == 0 ==> a == 0 || b == 0) by (nonlinear_arith);
}

/// Sign bookkeeping for quotients: relates the sign test used by
/// `fx_div_spec` to the sign test used by the executable code.
proof fn lemma_sign_match(a: int, b: int)
    requires
        b != 0,
    ensures
        ((a < 0) != (b < 0)) == !((a >= 0) == (b >= 0)) || a == 0,
        a == 0 ==> (abs_int(a) * (FX_ONE as int)) / abs_int(b) == 0,
{
    if a == 0 {
        assert((abs_int(a) * (FX_ONE as int)) == 0);
    }
}

/// Integer square root: the greatest `r` with `r * r <= n`.
pub fn isqrt_u64(n: u64) -> (r: u64)
    ensures
        r * r <= n,
        n < (r + 1) * (r + 1),
{
    let mut lo: u64 = 0;
    let mut hi: u64 = 0xFFFF_FFFF;
    proof {
        assert((0xFFFF_FFFFu64 + 1) * (0xFFFF_FFFFu64 + 1) > n as int) by (nonlinear_arith);
    }
    while lo < hi
        invariant
            lo <= hi,
            hi <= 0xFFFF_FFFF,
            lo * lo <= n,
            n < (hi + 1) * (hi + 1),
        decreases hi - lo,
    {
        let mid: u64 = lo + (hi - lo + 1) / 2;
        assert(lo < mid <= hi);
        assert(mid * mid <= 0xFFFF_FFFFu64 * 0xFFFF_FFFFu64) by (nonlinear_arith)
            requires
                mid <= 0xFFFF_FFFFu64,
        ;
        if mid * mid <= n {
            lo = mid;
        } else {
            hi = mid - 1;
        }
    }
    lo
}

/// Linear interpolation from `a` to `b` by `t`, truncated toward zero;
/// mirrors the engine's scalar `lerp`.
pub fn lerp_fx(a: Fx, b: Fx, t: Fx) -> (r: Fx)
    requires
        abs_int(a.raw as int) <= 0x4000_0000,
        abs_int(b.raw as int) <= 0x4000_0000,
        abs_int(t.raw as int) <= 0x4000_0000,
    ensures
        r.raw == a.raw + fx_mul_spec(b.raw - a.raw, t.raw as int),
{
    let d = b.sub_fx(a);
    proof {
        lemma_sign_split(d.raw as int, t.raw as int);
        assert(abs_int(d.raw as int) * abs_int(t.raw as int) <= 0x8000_0000 * 0x4000_0000int)
            by (nonlinear_arith)
            requires
                abs_int(d.raw as int) <= 0x8000_0000,
                abs_int(t.raw as int) <= 0x4000_0000,
        ;
    }
    let p = d.mul_fx(t);
    a.add_fx(p)
}

/// The 32-bit word that carries a fixed-point scalar to the backend: the
/// low 32 bits of its raw count, as hardware truncation keeps them.
pub open spec fn fx_word_spec(raw: int) -> int {
    raw % 0x1_0000_0000
}

/// Packs a fixed-point scalar into its 32-bit backend word.
pub fn fx_to_word(v: Fx) -> (w: u32)
    ensures
        w == fx_word_spec(v.raw as int),
{
    let r: i128 = v.raw as i128;
    if r >= 0 {
        (r % 0x1_0000_0000) as u32
    } else {
        let t: i128 = (-r) % 0x1_0000_0000;
        proof {
            lemma_neg_mod(r as int, t as int);
        }
        if t == 0 {
            0
        } else {
            (0x1_0000_0000 - t) as u32
        }
    }
}

/// The Euclidean residue of a negative value, from the residue of its
/// negation.
proof fn lemma_neg_mod(r: int, t: int)
    requires
        r < 0,
        t == (-r) % 0x1_0000_0000,
    ensures
        t == 0 ==> r % 0x1_0000_0000 == 0,
        t != 0 ==> r % 0x1_0000_0000 == 0x1_0000_0000 - t,
{
    let n = 0x1_0000_0000int;
    let q = (-r) / n;
    vstd::arithmetic::div_mod::lemma_fundamental_div_mod(-r, n);
    assert(-r == n * q + t);
    assert(0 <= t < n) by (nonlinear_arith)
        requires
            t == (-r) % n,
            -r > 0,
            n > 0,
    ;
    if t == 0 {
        assert(r == (-q) * n + 0) by (nonlinear_arith)
            requires
                -r == n * q + 0,
        ;
        vstd::arithmetic::div_mod::lemma_fundamental_div_mod_converse(r, n, -q, 0);
    } else {
        assert(r == (-q - 1) * n + (n - t)) by (nonlinear_arith)
            requires
                -r == n * q + t,
        ;
        vstd::arithmetic::div_mod::lemma_fundamental_div_mod_converse(r, n, -q - 1, n - t);
    }
}

/// Multiplying by a factor of at most one unit cannot grow the
/// magnitude.
pub proof fn lemma_mul_shrinks(n: int, s: int)
    requires
        0 <= s <= FX_ONE,
    ensures
        abs_int(fx_mul_spec(n, s)) <= abs_int(n),
        i64::MIN <= fx_mul_spec(n, s) <= i64::MAX || abs_int(n) > i64::MAX,
{
    let f = FX_ONE as int;
    assert(abs_int(n) * s <= abs_int(n) * f) by (nonlinear_arith)
        requires
            0 <= s <= f,
            abs_int(n) >= 0,
    ;
    vstd::arithmetic::div_mod::lemma_div_is_ordered(abs_int(n) * s, abs_int(n) * f, f);
    assert(abs_int(n) * f / f == abs_int(n)) by (nonlinear_arith)
        requires
            f == 65536,
            abs_int(n) >= 0,
    ;
    assert(abs_int(n) * s / f >= 0) by (nonlinear_arith)
        requires
            abs_int(n) * s >= 0,
            f >= 1,
    ;
}

/// A fixed-point quotient of a bounded dividend stays representable.
pub proof fn lemma_fx_div_in_range(a: int, b: int)
    requires
        b != 0,
        abs_int(a) <= 0x4000_0000_0000,
    ensures
        i64::MIN <= fx_div_spec(a, b) <= i64::MAX,
{
    assert(abs_int(a) * (FX_ONE as int) <= 0x4000_0000_0000int * 65536) by (nonlinear_arith)
        requires
            0 <= abs_int(a) <= 0x4000_0000_0000,
    ;
    assert(abs_int(a) * (FX_ONE as int) / abs_int(b) <= abs_int(a) * (FX_ONE as int))
        by (nonlinear_arith)
        requires
            abs_int(a) * (FX_ONE as int) >= 0,
            abs_int(b) >= 1,
    ;
    assert(abs_int(a) * (FX_ONE as int) / abs_int(b) >= 0) by (nonlinear_arith)
        requires
            abs_int(a) * (FX_ONE as int) >= 0,
            abs_int(b) >= 1,
    ;
}

} // verus!
