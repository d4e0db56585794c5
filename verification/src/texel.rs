//! Rectangular regions of flat, row-major texel planes: filling a region
//! with one value (clears) and copying a region from another plane with
//! nearest-neighbour scaling (blits).

use vstd::prelude::*;
use vstd::arithmetic::div_mod::lemma_fundamental_div_mod_converse;
use vstd::arithmetic::div_mod::lemma_fundamental_div_mod;

verus! {

/// Row, within its plane, of flat index `i` of a plane starting at `base`
/// with `w` texels per row.
pub open spec fn row_of(i: int, base: int, w: int) -> int {
    (i - base) / w
}

/// Column, within its plane, of flat index `i` of a plane starting at
/// `base` with `w` texels per row.
pub open spec fn col_of(i: int, base: int, w: int) -> int {
    (i - base) % w
}

/// True when flat index `i` lies in the rectangle `[rx0, rx1) x [ry0, ry1)`
/// of the `w x h` plane starting at `base`.
pub open spec fn in_rect(
    i: int,
    base: int,
    w: int,
    h: int,
    rx0: int,
    rx1: int,
    ry0: int,
    ry1: int,
) -> bool {
    &&& base <= i < base + w * h
    &&& ry0 <= row_of(i, base, w) < ry1
    &&& rx0 <= col_of(i, base, w) < rx1
}

/// The plane `old`, with the rectangle filled by `val`.
pub open spec fn fill_spec<T>(
    old: Seq<T>,
    base: int,
    w: int,
    h: int,
    rx0: int,
    rx1: int,
    ry0: int,
    ry1: int,
    val: T,
) -> Seq<T> {
    Seq::new(
        old.len(),
        |i: int|
            if in_rect(i, base, w, h, rx0, rx1, ry0, ry1) {
                val
            } else {
                old[i]
            },
    )
}

/// Flat index of texel `(x, y)` of the plane starting at `base` with `w`
/// texels per row; the coordinates round-trip through `row_of`/`col_of`.
pub proof fn lemma_index_coords(base: int, w: int, h: int, x: int, y: int)
    requires
        w >= 1,
        0 <= x < w,
        0 <= y < h,
    ensures
        base <= base + y * w + x < base + w * h,
        row_of(base + y * w + x, base, w) == y,
        col_of(base + y * w + x, base, w) == x,
{
    let i = base + y * w + x;
    assert(0 <= y * w + x < w * h) by (nonlinear_arith)
        requires
            w >= 1,
            0 <= x < w,
            0 <= y < h,
    ;
    lemma_fundamental_div_mod_converse(i - base, w, y, x);
}

/// Every flat index of the plane is the index of its row/column pair.
pub proof fn lemma_coords_index(base: int, w: int, h: int, i: int)
    requires
        w >= 1,
        h >= 0,
        base <= i < base + w * h,
    ensures
        0 <= row_of(i, base, w) < h,
        0 <= col_of(i, base, w) < w,
        i == base + row_of(i, base, w) * w + col_of(i, base, w),
{
    let j = i - base;
    lemma_fundamental_div_mod(j, w);
    assert(j == w * (j / w) + j % w);
    assert(0 <= j % w < w) by (nonlinear_arith)
        requires
            w >= 1,
            j >= 0,
    ;
    assert(w * (j / w) == (j / w) * w) by (nonlinear_arith);
    assert(0 <= j / w < h) by (nonlinear_arith)
        requires
            w >= 1,
            0 <= j < w * h,
            j == (j / w) * w + j % w,
            0 <= j % w < w,
    ;
}

/// Fills the rectangle `[rx0, rx1) x [ry0, ry1)` of the `w x h` plane
/// starting at `base` inside `texels` with `val`.
pub fn fill_region<T: Copy>(
    texels: &mut Vec<T>,
    base: usize,
    w: usize,
    h: usize,
    rx0: usize,
    rx1: usize,
    ry0: usize,
    ry1: usize,
    val: T,
)
    requires
        w >= 1,
        base + w * h <= old(texels)@.len(),
        rx0 <= rx1 <= w,
        ry0 <= ry1 <= h,
    ensures
        final(texels)@ == fill_spec(
            old(texels)@,
            base as int,
            w as int,
            h as int,
            rx0 as int,
            rx1 as int,
            ry0 as int,
            ry1 as int,
            val,
        ),
{
    let ghost orig = texels@;
    let n_len: usize = texels.len();
    proof {
        assert(base + w * h <= usize::MAX);
        assert(texels@ =~= fill_spec(
            orig,
            base as int,
            w as int,
            h as int,
            rx0 as int,
            rx1 as int,
            ry0 as int,
            ry0 as int,
            val,
        ));
    }
    let mut y: usize = ry0;
    while y < ry1
        invariant
            ry0 <= y <= ry1,
            rx0 <= rx1 <= w,
            ry0 <= ry1 <= h,
            w >= 1,
            base + w * h <= orig.len(),
            base + w * h <= usize::MAX,
            texels@ == fill_spec(
                orig,
                base as int,
                w as int,
                h as int,
                rx0 as int,
                rx1 as int,
                ry0 as int,
                y as int,
            val,
            ),
        decreases ry1 - y,
    {
        let mut x: usize = rx0;
        while x < rx1
            invariant
                ry0 <= y < ry1,
                rx0 <= x <= rx1,
                rx0 <= rx1 <= w,
                ry0 <= ry1 <= h,
                w >= 1,
                base + w * h <= orig.len(),
                base + w * h <= usize::MAX,
                texels@.len() == orig.len(),
                forall|i: int|
                    0 <= i < orig.len() && in_rect(
                        i,
                        base as int,
                        w as int,
                        h as int,
                        rx0 as int,
                        rx1 as int,
                        ry0 as int,
                        y as int,
                    ) ==> texels@[i] == val,
                forall|i: int|
                    0 <= i < orig.len() && in_rect(
                        i,
                        base as int,
                        w as int,
                        h as int,
                        rx0 as int,
                        x as int,
                        y as int,
                        y + 1,
                    ) ==> texels@[i] == val,
                forall|i: int|
                    0 <= i < orig.len() && !in_rect(
                        i,
                        base as int,
                        w as int,
                        h as int,
                        rx0 as int,
                        rx1 as int,
                        ry0 as int,
                        y as int,
                    ) && !in_rect(
                        i,
                        base as int,
                        w as int,
                        h as int,
                        rx0 as int,
                        x as int,
                        y as int,
                        y + 1,
                    ) ==> texels@[i] == orig[i],
            decreases rx1 - x,
        {
            proof {
                lemma_index_coords(base as int, w as int, h as int, x as int, y as int);
                assert(y * w + x < w * h);
            }
            let idx: usize = base + y * w + x;
            texels[idx] = val;
            proof {
                assert forall|i: int|
                    0 <= i < orig.len() && in_rect(
                        i,
                        base as int,
                        w as int,
                        h as int,
                        rx0 as int,
                        x + 1,
                        y as int,
                        y + 1,
                    ) implies texels@[i] == val by {
                    lemma_coords_index(base as int, w as int, h as int, i);
                    if i != idx {
                        assert(in_rect(
                            i,
                            base as int,
                            w as int,
                            h as int,
                            rx0 as int,
                            x as int,
                            y as int,
                            y + 1,
                        ));
                    }
                }
            }
            x = x + 1;
        }
        proof {
            assert forall|i: int|
                0 <= i < orig.len() && in_rect(
                    i,
                    base as int,
                    w as int,
                    h as int,
                    rx0 as int,
                    rx1 as int,
                    ry0 as int,
                    y + 1,
                ) implies texels@[i] == val by {
                lemma_coords_index(base as int, w as int, h as int, i);
            }
            assert forall|i: int|
                0 <= i < orig.len() && !in_rect(
                    i,
                    base as int,
                    w as int,
                    h as int,
                    rx0 as int,
                    rx1 as int,
                    ry0 as int,
                    y + 1,
                ) implies texels@[i] == orig[i] by {
                if base <= i < base + w * h {
                    lemma_coords_index(base as int, w as int, h as int, i);
                }
            }
        }
        y = y + 1;
        proof {
            assert(texels@ =~= fill_spec(
                orig,
                base as int,
                w as int,
                h as int,
                rx0 as int,
                rx1 as int,
                ry0 as int,
                y as int,
                val,
            ));
        }
    }
    proof {
        assert(texels@ =~= fill_spec(
            orig,
            base as int,
            w as int,
            h as int,
            rx0 as int,
            rx1 as int,
            ry0 as int,
            ry1 as int,
            val,
        ));
    }
}


/// Source coordinate that nearest-neighbour scaling assigns to destination
/// coordinate `v` when `[d0, d1)` is mapped onto `[s0, s1)`.
pub open spec fn map_coord(v: int, d0: int, d1: int, s0: int, s1: int) -> int {
    s0 + (v - d0) * (s1 - s0) / (d1 - d0)
}

/// Flat source index that a scaled copy reads for the destination texel at
/// row `y`, column `x`.
pub open spec fn src_flat(
    y: int,
    x: int,
    dx0: int,
    dx1: int,
    dy0: int,
    dy1: int,
    sbase: int,
    sw: int,
    sx0: int,
    sx1: int,
    sy0: int,
    sy1: int,
) -> int {
    sbase + map_coord(y, dy0, dy1, sy0, sy1) * sw + map_coord(x, dx0, dx1, sx0, sx1)
}

/// The destination plane `dold`, with the rectangle `[dx0, dx1) x [dy0,
/// dy1)` replaced by the scaled copy of the source rectangle `[sx0, sx1) x
/// [sy0, sy1)` of plane `s`.
pub open spec fn copy_spec<T>(
    dold: Seq<T>,
    s: Seq<T>,
    dbase: int,
    dw: int,
    dh: int,
    dx0: int,
    dx1: int,
    dy0: int,
    dy1: int,
    sbase: int,
    sw: int,
    sx0: int,
    sx1: int,
    sy0: int,
    sy1: int,
) -> Seq<T> {
    Seq::new(
        dold.len(),
        |i: int|
            if in_rect(i, dbase, dw, dh, dx0, dx1, dy0, dy1) {
                s[src_flat(
                    row_of(i, dbase, dw),
                    col_of(i, dbase, dw),
                    dx0,
                    dx1,
                    dy0,
                    dy1,
                    sbase,
                    sw,
                    sx0,
                    sx1,
                    sy0,
                    sy1,
                )]
            } else {
                dold[i]
            },
    )
}

/// The scaled mapping sends `[d0, d1)` into `[s0, s1)`.
pub proof fn lemma_map_coord_range(v: int, d0: int, d1: int, s0: int, s1: int)
    requires
        d0 <= v < d1,
        s0 < s1,
    ensures
        s0 <= map_coord(v, d0, d1, s0, s1) < s1,
{
    let a = (v - d0) * (s1 - s0);
    let b = d1 - d0;
    let c = s1 - s0;
    assert(0 <= a < b * c) by (nonlinear_arith)
        requires
            0 <= v - d0 < b,
            c > 0,
            a == (v - d0) * c,
    ;
    vstd::arithmetic::div_mod::lemma_multiply_divide_lt(a, b, c);
    assert(a / b >= 0) by (nonlinear_arith)
        requires
            a >= 0,
            b > 0,
    ;
}

/// Copies the source rectangle of plane `src` onto the destination
/// rectangle of `dst` with nearest-neighbour scaling.
pub fn copy_region_scaled<T: Copy>(
    dst: &mut Vec<T>,
    dbase: usize,
    dw: usize,
    dh: usize,
    dx0: usize,
    dx1: usize,
    dy0: usize,
    dy1: usize,
    src: &Vec<T>,
    sbase: usize,
    sw: usize,
    sh: usize,
    sx0: usize,
    sx1: usize,
    sy0: usize,
    sy1: usize,
)
    requires
        dw >= 1,
        sw >= 1,
        dbase + dw * dh <= old(dst)@.len(),
        sbase + sw * sh <= src@.len(),
        dx0 < dx1 <= dw,
        dy0 < dy1 <= dh,
        sx0 < sx1 <= sw,
        sy0 < sy1 <= sh,
        (dx1 - dx0) * (sx1 - sx0) <= usize::MAX,
        (dy1 - dy0) * (sy1 - sy0) <= usize::MAX,
    ensures
        final(dst)@ == copy_spec(
            old(dst)@,
            src@,
            dbase as int,
            dw as int,
            dh as int,
            dx0 as int,
            dx1 as int,
            dy0 as int,
            dy1 as int,
            sbase as int,
            sw as int,
            sx0 as int,
            sx1 as int,
            sy0 as int,
            sy1 as int,
        ),
{
    let ghost orig = dst@;
    let n_len: usize = dst.len();
    let s_len: usize = src.len();
    let ghost goal = copy_spec(
        orig,
        src@,
        dbase as int,
        dw as int,
        dh as int,
        dx0 as int,
        dx1 as int,
        dy0 as int,
        dy1 as int,
        sbase as int,
        sw as int,
        sx0 as int,
        sx1 as int,
        sy0 as int,
        sy1 as int,
    );
    let mut i: usize = 0;
    while i < n_len
        invariant
            0 <= i <= n_len,
            n_len == orig.len(),
            dst@.len() == orig.len(),
            goal == copy_spec(
                orig,
                src@,
                dbase as int,
                dw as int,
                dh as int,
                dx0 as int,
                dx1 as int,
                dy0 as int,
                dy1 as int,
                sbase as int,
                sw as int,
                sx0 as int,
                sx1 as int,
                sy0 as int,
                sy1 as int,
            ),
            dw >= 1,
            sw >= 1,
            dbase + dw * dh <= orig.len(),
            sbase + sw * sh <= src@.len(),
            sbase + sw * sh <= usize::MAX,
            dx0 < dx1 <= dw,
            dy0 < dy1 <= dh,
            sx0 < sx1 <= sw,
            sy0 < sy1 <= sh,
            (dx1 - dx0) * (sx1 - sx0) <= usize::MAX,
            (dy1 - dy0) * (sy1 - sy0) <= usize::MAX,
            forall|j: int| #![trigger dst@[j]] 0 <= j < i ==> dst@[j] == goal[j],
            forall|j: int| #![trigger dst@[j]] i <= j < orig.len() ==> dst@[j] == orig[j],
        decreases n_len - i,
    {
        if i >= dbase && i < dbase + dw * dh {
            let off: usize = i - dbase;
            let r: usize = off / dw;
            let c: usize = off % dw;
            proof {
                assert(r == row_of(i as int, dbase as int, dw as int));
                assert(c == col_of(i as int, dbase as int, dw as int));
            }
            if r >= dy0 && r < dy1 && c >= dx0 && c < dx1 {
                proof {
                    assert((r - dy0) * (sy1 - sy0) <= (dy1 - dy0) * (sy1 - sy0))
                        by (nonlinear_arith)
                        requires
                            0 <= r - dy0 <= dy1 - dy0,
                            sy1 - sy0 >= 0,
                    ;
                    lemma_map_coord_range(r as int, dy0 as int, dy1 as int, sy0 as int, sy1 as int);
                    assert((c - dx0) * (sx1 - sx0) <= (dx1 - dx0) * (sx1 - sx0))
                        by (nonlinear_arith)
                        requires
                            0 <= c - dx0 <= dx1 - dx0,
                            sx1 - sx0 >= 0,
                    ;
                    lemma_map_coord_range(c as int, dx0 as int, dx1 as int, sx0 as int, sx1 as int);
                }
                let sy: usize = sy0 + ((r - dy0) * (sy1 - sy0)) / (dy1 - dy0);
                let sx: usize = sx0 + ((c - dx0) * (sx1 - sx0)) / (dx1 - dx0);
                proof {
                    assert(sx < sw);
                    assert(sy < sh);
                    lemma_index_coords(sbase as int, sw as int, sh as int, sx as int, sy as int);
                    assert(sy * sw + sx < sw * sh) by (nonlinear_arith)
                        requires
                            sx < sw,
                            sy < sh,
                            sw >= 1,
                            sx >= 0,
                            sy >= 0,
                    ;
                    assert(sbase + sw * sh <= usize::MAX);
                }
                let sidx: usize = sbase + sy * sw + sx;
                let v: T = src[sidx];
                dst[i] = v;
                proof {
                    assert(in_rect(
                        i as int,
                        dbase as int,
                        dw as int,
                        dh as int,
                        dx0 as int,
                        dx1 as int,
                        dy0 as int,
                        dy1 as int,
                    ));
                    assert(goal[i as int] == src@[src_flat(
                        r as int,
                        c as int,
                        dx0 as int,
                        dx1 as int,
                        dy0 as int,
                        dy1 as int,
                        sbase as int,
                        sw as int,
                        sx0 as int,
                        sx1 as int,
                        sy0 as int,
                        sy1 as int,
                    )]);
                    assert(dst@[i as int] == goal[i as int]);
                }
            } else {
                proof {
                    assert(!in_rect(
                        i as int,
                        dbase as int,
                        dw as int,
                        dh as int,
                        dx0 as int,
                        dx1 as int,
                        dy0 as int,
                        dy1 as int,
                    ));
                    assert(dst@[i as int] == goal[i as int]);
                }
            }
        } else {
            proof {
                if dbase <= i < dbase + dw * dh {
                } else {
                    assert(!in_rect(
                        i as int,
                        dbase as int,
                        dw as int,
                        dh as int,
                        dx0 as int,
                        dx1 as int,
                        dy0 as int,
                        dy1 as int,
                    ));
                }
                assert(dst@[i as int] == goal[i as int]);
            }
        }
        i = i + 1;
    }
    proof {
        assert(dst@ =~= goal);
    }
}

/// A plane of `n` copies of `val`.
pub fn filled_plane<T: Copy>(n: usize, val: T) -> (r: Vec<T>)
    ensures
        r@ == Seq::new(n as nat, |i: int| val),
{
    let mut r: Vec<T> = Vec::new();
    let mut i: usize = 0;
    while i < n
        invariant
            i <= n,
            r@.len() == i,
            forall|j: int| 0 <= j < i ==> r@[j] == val,
        decreases n - i,
    {
        r.push(val);
        i = i + 1;
    }
    proof {
        assert(r@ =~= Seq::new(n as nat, |i: int| val));
    }
    r
}

/// An exact copy of a plane.
pub fn copy_plane<T: Copy>(v: &Vec<T>) -> (r: Vec<T>)
    ensures
        r@ == v@,
{
    let mut r: Vec<T> = Vec::new();
    let mut i: usize = 0;
    while i < v.len()
        invariant
            i <= v@.len(),
            r@.len() == i,
            forall|j: int| 0 <= j < i ==> r@[j] == v@[j],
        decreases v@.len() - i,
    {
        r.push(v[i]);
        i = i + 1;
    }
    proof {
        assert(r@ =~= v@);
    }
    r
}

} // verus!
