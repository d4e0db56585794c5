//! Sequential packing of per-frame uniforms into a word buffer, with the
//! std140 alignment rules scaled to 32-bit words: scalars take one word,
//! two-component vectors align to two, matrices and three-component array
//! elements align to four (one column or element per four-word slot). The
//! push order must match the shader's uniform block field order exactly;
//! the contracts pin every word, so the packed total is checked statically
//! where the buffer is filled.

use vstd::prelude::*;
use crate::algebra::{Matrix3, Matrix4, Vector2, Vector3};
use crate::fixed::{fx_to_word, fx_word_spec, Fx};

verus! {

/// The backend word of one scalar.
pub open spec fn word_of(v: Fx) -> u32 {
    fx_word_spec(v.raw as int) as u32
}

/// `n` rounded up to the next multiple of `a`.
pub open spec fn align_up(n: int, a: int) -> int {
    ((n + a - 1) / a) * a
}

/// The words of a 4 x 4 matrix, column-major as the backend consumes it.
pub open spec fn mat4_words(m: Matrix4) -> Seq<u32> {
    seq![
        word_of(m.m11),
        word_of(m.m21),
        word_of(m.m31),
        word_of(m.m41),
        word_of(m.m12),
        word_of(m.m22),
        word_of(m.m32),
        word_of(m.m42),
        word_of(m.m13),
        word_of(m.m23),
        word_of(m.m33),
        word_of(m.m43),
        word_of(m.m14),
        word_of(m.m24),
        word_of(m.m34),
        word_of(m.m44),
    ]
}

/// The words of a 3 x 3 matrix: three column slots of four words, the
/// fourth word of each slot padding.
pub open spec fn mat3_words(m: Matrix3) -> Seq<u32> {
    seq![
        word_of(m.m11),
        word_of(m.m21),
        word_of(m.m31),
        0u32,
        word_of(m.m12),
        word_of(m.m22),
        word_of(m.m32),
        0u32,
        word_of(m.m13),
        word_of(m.m23),
        word_of(m.m33),
        0u32,
    ]
}

/// The words of one element of an array of three-component vectors: a
/// four-word slot, the fourth word padding.
pub open spec fn vec3_slot_words(v: Vector3) -> Seq<u32> {
    seq![word_of(v.x), word_of(v.y), word_of(v.z), 0u32]
}

/// A fixed-layout staging buffer for one uniform block, filled front to
/// back by `push` calls.
#[derive(Debug)]
pub struct StaticUniformBuffer {
    /// The packed words so far.
    pub words: Vec<u32>,
}

impl StaticUniformBuffer {
    /// An empty staging buffer.
    pub fn new() -> (b: StaticUniformBuffer)
        ensures
            b.words@.len() == 0,
    {
        StaticUniformBuffer { words: Vec::new() }
    }

    /// The number of words packed so far.
    pub fn len(&self) -> (n: usize)
        ensures
            n == self.words@.len(),
    {
        self.words.len()
    }

    /// Pads with zero words to an `a`-word boundary.
    fn align(&mut self, a: usize)
        requires
            1 <= a <= 4,
            old(self).words@.len() + a <= usize::MAX,
        ensures
            final(self).words@.len() == align_up(old(self).words@.len() as int, a as int),
            final(self).words@ == old(self).words@ + Seq::new(
                (final(self).words@.len() - old(self).words@.len()) as nat,
                |i: int| 0u32,
            ),
    {
        let ghost n0 = self.words@.len() as int;
        proof {
            lemma_align_up_bounds(n0, a as int);
            assert(self.words@ =~= self.words@ + Seq::new(0nat, |i: int| 0u32));
        }
        while self.words.len() % a != 0
            invariant
                1 <= a <= 4,
                n0 <= self.words@.len(),
                self.words@.len() <= align_up(n0, a as int),
                align_up(n0, a as int) < n0 + a,
                (self.words@.len() as int) % (a as int) != 0 ==> self.words@.len() < align_up(
                    n0,
                    a as int,
                ),
                (self.words@.len() as int) % (a as int) == 0 ==> self.words@.len() == align_up(
                    n0,
                    a as int,
                ),
                self.words@ == old(self).words@ + Seq::new(
                    (self.words@.len() - n0) as nat,
                    |i: int| 0u32,
                ),
                n0 == old(self).words@.len(),
            decreases align_up(n0, a as int) - self.words@.len(),
        {
            self.words.push(0);
            proof {
                let n = self.words@.len() as int;
                vstd::arithmetic::div_mod::lemma_fundamental_div_mod(n - 1, a as int);
                vstd::arithmetic::div_mod::lemma_fundamental_div_mod(n, a as int);
                assert(self.words@ =~= old(self).words@ + Seq::new(
                    (self.words@.len() - n0) as nat,
                    |i: int| 0u32,
                ));
                lemma_align_step(n0, n, a as int);
            }
        }
    }

    /// Packs one scalar.
    pub fn push(&mut self, v: Fx)
        requires
            old(self).words@.len() + 1 <= usize::MAX,
        ensures
            final(self).words@ == old(self).words@ + seq![word_of(v)],
    {
        let w = fx_to_word(v);
        self.words.push(w);
        proof {
            assert(self.words@ =~= old(self).words@ + seq![word_of(v)]);
        }
    }

    /// Packs a two-component vector at a two-word boundary.
    pub fn push_vector2(&mut self, v: Vector2)
        requires
            old(self).words@.len() + 4 <= usize::MAX,
        ensures
            final(self).words@ == old(self).words@ + Seq::new(
                (align_up(old(self).words@.len() as int, 2) - old(self).words@.len()) as nat,
                |i: int| 0u32,
            ) + seq![word_of(v.x), word_of(v.y)],
    {
        self.align(2);
        let wx = fx_to_word(v.x);
        let wy = fx_to_word(v.y);
        self.words.push(wx);
        self.words.push(wy);
        proof {
            assert(self.words@ =~= old(self).words@ + Seq::new(
                (align_up(old(self).words@.len() as int, 2) - old(self).words@.len()) as nat,
                |i: int| 0u32,
            ) + seq![word_of(v.x), word_of(v.y)]);
        }
    }

    /// Packs a 4 x 4 matrix, column-major, at a four-word boundary.
    pub fn push_matrix4(&mut self, m: &Matrix4)
        requires
            old(self).words@.len() + 20 <= usize::MAX,
        ensures
            final(self).words@ == old(self).words@ + Seq::new(
                (align_up(old(self).words@.len() as int, 4) - old(self).words@.len()) as nat,
                |i: int| 0u32,
            ) + mat4_words(*m),
    {
        self.align(4);
        self.words.push(fx_to_word(m.m11));
        self.words.push(fx_to_word(m.m21));
        self.words.push(fx_to_word(m.m31));
        self.words.push(fx_to_word(m.m41));
        self.words.push(fx_to_word(m.m12));
        self.words.push(fx_to_word(m.m22));
        self.words.push(fx_to_word(m.m32));
        self.words.push(fx_to_word(m.m42));
        self.words.push(fx_to_word(m.m13));
        self.words.push(fx_to_word(m.m23));
        self.words.push(fx_to_word(m.m33));
        self.words.push(fx_to_word(m.m43));
        self.words.push(fx_to_word(m.m14));
        self.words.push(fx_to_word(m.m24));
        self.words.push(fx_to_word(m.m34));
        self.words.push(fx_to_word(m.m44));
        proof {
            assert(self.words@ =~= old(self).words@ + Seq::new(
                (align_up(old(self).words@.len() as int, 4) - old(self).words@.len()) as nat,
                |i: int| 0u32,
            ) + mat4_words(*m));
        }
    }

    /// Packs a 3 x 3 matrix as three padded column slots at a four-word
    /// boundary.
    pub fn push_matrix3(&mut self, m: &Matrix3)
        requires
            old(self).words@.len() + 16 <= usize::MAX,
        ensures
            final(self).words@ == old(self).words@ + Seq::new(
                (align_up(old(self).words@.len() as int, 4) - old(self).words@.len()) as nat,
                |i: int| 0u32,
            ) + mat3_words(*m),
    {
        self.align(4);
        self.words.push(fx_to_word(m.m11));
        self.words.push(fx_to_word(m.m21));
        self.words.push(fx_to_word(m.m31));
        self.words.push(0);
        self.words.push(fx_to_word(m.m12));
        self.words.push(fx_to_word(m.m22));
        self.words.push(fx_to_word(m.m32));
        self.words.push(0);
        self.words.push(fx_to_word(m.m13));
        self.words.push(fx_to_word(m.m23));
        self.words.push(fx_to_word(m.m33));
        self.words.push(0);
        proof {
            assert(self.words@ =~= old(self).words@ + Seq::new(
                (align_up(old(self).words@.len() as int, 4) - old(self).words@.len()) as nat,
                |i: int| 0u32,
            ) + mat3_words(*m));
        }
    }

    /// Packs an array of three-component vectors, one padded four-word
    /// slot per element, at a four-word boundary.
    pub fn push_slice(&mut self, vs: &Vec<Vector3>)
        requires
            old(self).words@.len() + 4 + 4 * vs@.len() <= usize::MAX,
        ensures
            final(self).words@ == old(self).words@ + Seq::new(
                (align_up(old(self).words@.len() as int, 4) - old(self).words@.len()) as nat,
                |i: int| 0u32,
            ) + Seq::new(vs@.len(), |i: int| vs@[i]).flat_map(|v: Vector3| vec3_slot_words(v)),
            final(self).words@.len() == align_up(old(self).words@.len() as int, 4) + 4 * vs@.len(),
    {
        self.align(4);
        let ghost aligned = self.words@;
        let mut i: usize = 0;
        while i < vs.len()
            invariant
                i <= vs@.len(),
                aligned.len() + 4 * vs@.len() <= usize::MAX,
                self.words@.len() == aligned.len() + 4 * i,
                self.words@ == aligned + Seq::new(i as nat, |k: int| vs@[k]).flat_map(
                    |v: Vector3| vec3_slot_words(v),
                ),
            decreases vs@.len() - i,
        {
            let v = vs[i];
            let ghost before = self.words@;
            self.words.push(fx_to_word(v.x));
            self.words.push(fx_to_word(v.y));
            self.words.push(fx_to_word(v.z));
            self.words.push(0);
            proof {
                let prefix = Seq::new(i as nat, |k: int| vs@[k]);
                let next = Seq::new((i + 1) as nat, |k: int| vs@[k]);
                assert(next.drop_last() =~= prefix);
                assert(next.last() == vs@[i as int]);
                prefix.lemma_flat_map_push(
                    |v2: Vector3| vec3_slot_words(v2),
                    vs@[i as int],
                );
                assert(next =~= prefix.push(vs@[i as int]));
                assert(self.words@ =~= aligned + next.flat_map(|v2: Vector3| vec3_slot_words(v2)));
            }
            i = i + 1;
        }
    }

    /// Finishes the block: pads the total to a four-word boundary and
    /// hands the packed words over.
    pub fn finish(self) -> (r: Vec<u32>)
        requires
            self.words@.len() + 4 <= usize::MAX,
        ensures
            r@ == self.words@ + Seq::new(
                (align_up(self.words@.len() as int, 4) - self.words@.len()) as nat,
                |i: int| 0u32,
            ),
    {
        let mut b = self;
        b.align(4);
        b.words
    }
}

/// Rounding up to a boundary moves forward by less than one block.
proof fn lemma_align_up_bounds(n0: int, a: int)
    requires
        1 <= a,
        0 <= n0,
    ensures
        n0 <= align_up(n0, a) < n0 + a,
        align_up(n0, a) % a == 0,
        n0 % a == 0 ==> align_up(n0, a) == n0,
{
    let q = (n0 + a - 1) / a;
    vstd::arithmetic::div_mod::lemma_fundamental_div_mod(n0 + a - 1, a);
    assert(0 <= (n0 + a - 1) % a < a) by (nonlinear_arith)
        requires
            a >= 1,
            n0 + a - 1 >= 0,
    ;
    assert(a * q == q * a) by (nonlinear_arith);
    assert((q * a) % a == 0) by (nonlinear_arith)
        requires
            a >= 1,
    ;
    if n0 % a == 0 {
        let q0 = n0 / a;
        vstd::arithmetic::div_mod::lemma_fundamental_div_mod(n0, a);
        assert(n0 == q0 * a) by (nonlinear_arith)
            requires
                n0 == a * q0 + n0 % a,
                n0 % a == 0,
        ;
        assert(q * a == n0) by (nonlinear_arith)
            requires
                n0 == q0 * a,
                n0 <= q * a < n0 + a,
                a >= 1,
        ;
    }
}

/// One zero word extends a partial alignment block and completes it at
/// the boundary.
proof fn lemma_align_step(n0: int, n: int, a: int)
    requires
        1 <= a,
        n0 >= 0,
        n0 < n <= align_up(n0, a),
    ensures
        n % a != 0 ==> n < align_up(n0, a),
        n % a == 0 ==> n == align_up(n0, a),
{
    lemma_align_up_bounds(n0, a);
    let av = align_up(n0, a);
    if n % a != 0 {
        assert(n != av);
    }
    if n % a == 0 && n < av {
        let q = (n0 + a - 1) / a;
        let qn = n / a;
        vstd::arithmetic::div_mod::lemma_fundamental_div_mod(n, a);
        assert(n == a * qn + n % a);
        assert(n == qn * a) by (nonlinear_arith)
            requires
                n == a * qn + n % a,
                n % a == 0,
        ;
        assert(qn < q) by (nonlinear_arith)
            requires
                n == qn * a,
                av == q * a,
                n < av,
                a >= 1,
        ;
        assert(n <= av - a) by (nonlinear_arith)
            requires
                qn <= q - 1,
                n == qn * a,
                av == q * a,
                a >= 1,
        ;
        assert(av < n0 + a);
        assert(false);
    }
}

} // verus!
