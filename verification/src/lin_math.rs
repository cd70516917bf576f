//! Lookup-table interpolation.
//!
//! A lookup table is an ordered sequence of `(x, y)` pairs whose keys are
//! strictly ascending.  A query below the smallest key or above the largest
//! key clamps to the boundary value; a query between two keys is linearly
//! interpolated.  Coordinates are plain integers (the caller fixes the unit
//! and scale); interpolation rounds the exact rational value down.

use vstd::prelude::*;
use vstd::arithmetic::div_mod::lemma_div_is_ordered;
use vstd::arithmetic::div_mod::lemma_div_multiples_vanish;
use vstd::arithmetic::div_mod::lemma_fundamental_div_mod;
use vstd::arithmetic::div_mod::lemma_fundamental_div_mod_converse_div;

verus! {

/// Largest magnitude a table coordinate may have.  Keeping every coordinate
/// within this bound lets the interpolation products stay inside `i64`.
pub const LUT_COORD_LIMIT: i64 = 1_000_000_000;

/// Every coordinate of the table lies within `LUT_COORD_LIMIT`.
pub open spec fn lut_coords_bounded(lut: Seq<(i64, i64)>) -> bool {
    forall|i: int|
        0 <= i < lut.len() ==> {
            &&& -LUT_COORD_LIMIT <= (#[trigger] lut[i]).0 <= LUT_COORD_LIMIT
            &&& -LUT_COORD_LIMIT <= lut[i].1 <= LUT_COORD_LIMIT
        }
}

/// The table keys are strictly ascending.
pub open spec fn lut_keys_ascending(lut: Seq<(i64, i64)>) -> bool {
    forall|i: int, j: int|
        0 <= i < j < lut.len() ==> (#[trigger] lut[i]).0 < (#[trigger] lut[j]).0
}

/// Exact value of the linear interpolation between `(x0, y0)` and
/// `(x1, y1)` at `x`, rounded toward minus infinity.
pub open spec fn interp_value(x: int, x0: int, x1: int, y0: int, y1: int) -> int
    recommends
        x0 < x1,
{
    y0 + (x - x0) * (y1 - y0) / (x1 - x0)
}

/// Value a table yields at `x`: the boundary value outside the key range,
/// the interpolated value between the two bracketing keys inside it, and 0
/// for an empty table.
pub open spec fn lut_value(lut: Seq<(i64, i64)>, x: int) -> int
    decreases lut.len(),
{
    if lut.len() == 0 {
        0
    } else if lut.len() == 1 {
        lut[0].1 as int
    } else if x <= lut[0].0 {
        lut[0].1 as int
    } else if x >= lut[1].0 {
        lut_value(lut.subrange(1, lut.len() as int), x)
    } else {
        interp_value(x, lut[0].0 as int, lut[1].0 as int, lut[0].1 as int, lut[1].1 as int)
    }
}

/// A query at or above the largest key yields the last value.
proof fn lemma_lut_value_high(lut: Seq<(i64, i64)>, x: int)
    requires
        lut_keys_ascending(lut),
        lut.len() > 0,
        x >= lut.last().0,
    ensures
        lut_value(lut, x) == lut.last().1,
    decreases lut.len(),
{
    if lut.len() > 1 {
        let tail = lut.subrange(1, lut.len() as int);
        assert(lut.last().0 > lut[0].0);
        assert(x >= lut[1].0);
        assert(lut_keys_ascending(tail)) by {
            assert(forall|i: int, j: int|
                0 <= i < j < tail.len() ==> (#[trigger] tail[i]).0 < (#[trigger] tail[j]).0);
        }
        assert(tail.last() == lut.last());
        lemma_lut_value_high(tail, x);
    }
}

/// Inside the table, the value at `x` is the interpolation over the segment
/// whose keys bracket `x`.
proof fn lemma_lut_value_segment(lut: Seq<(i64, i64)>, x: int, i: int)
    requires
        lut_keys_ascending(lut),
        0 <= i < lut.len() - 1,
        lut[i].0 <= x < lut[i + 1].0,
    ensures
        lut_value(lut, x) == interp_value(
            x,
            lut[i].0 as int,
            lut[i + 1].0 as int,
            lut[i].1 as int,
            lut[i + 1].1 as int,
        ),
    decreases lut.len(),
{
    if i == 0 {
        if x <= lut[0].0 {
            assert(x == lut[0].0);
            assert((x - lut[0].0) * (lut[1].1 - lut[0].1) == 0) by (nonlinear_arith)
                requires
                    x == lut[0].0,
            ;
            assert(0int / (lut[1].0 - lut[0].0) == 0) by {
                lemma_div_multiples_vanish(0, lut[1].0 - lut[0].0);
            }
        }
    } else {
        let tail = lut.subrange(1, lut.len() as int);
        assert(lut_keys_ascending(tail)) by {
            assert(forall|i: int, j: int|
                0 <= i < j < tail.len() ==> (#[trigger] tail[i]).0 < (#[trigger] tail[j]).0);
        }
        assert(x >= lut[i].0);
        assert(lut[i].0 >= lut[1].0);
        assert(x > lut[0].0);
        lemma_lut_value_segment(tail, x, i - 1);
    }
}

/// Floor division of `num` by the positive divisor `den`, computed on
/// magnitudes so that the machine arithmetic stays unsigned.
fn div_floor(num: i64, den: i64) -> (q: i64)
    requires
        0 < den <= 2_000_000_000,
        -4_000_000_000_000_000_000 <= num <= 4_000_000_000_000_000_000,
    ensures
        q == num as int / den as int,
{
    let denu: u64 = den as u64;
    if num >= 0 {
        let q: u64 = (num as u64) / denu;
        proof {
            lemma_div_is_ordered(num as int, 4_000_000_000_000_000_000, den as int);
            lemma_div_is_ordered(0, num as int, den as int);
            lemma_div_multiples_vanish(0, den as int);
        }
        q as i64
    } else {
        let m: u64 = (-num) as u64;
        let qc: u64 = (m + denu - 1) / denu;
        proof {
            let mi = m as int;
            let d = den as int;
            let qf = mi / d;
            let r = mi % d;
            lemma_fundamental_div_mod(mi, d);
            if r == 0 {
                assert(mi + d - 1 == qf * d + (d - 1));
                lemma_fundamental_div_mod_converse_div(mi + d - 1, d, qf, d - 1);
                assert(-mi == (-qf) * d + 0) by (nonlinear_arith)
                    requires
                        mi == qf * d + 0,
                ;
                lemma_fundamental_div_mod_converse_div(-mi, d, -qf, 0);
            } else {
                assert(mi + d - 1 == (qf + 1) * d + (r - 1)) by (nonlinear_arith)
                    requires
                        mi == qf * d + r,
                ;
                lemma_fundamental_div_mod_converse_div(mi + d - 1, d, qf + 1, r - 1);
                assert(-mi == (-qf - 1) * d + (d - r)) by (nonlinear_arith)
                    requires
                        mi == qf * d + r,
                ;
                lemma_fundamental_div_mod_converse_div(-mi, d, -qf - 1, d - r);
            }
            lemma_div_is_ordered(mi, 4_000_002_000_000_000_000, d);
            lemma_div_is_ordered(0, mi, d);
            lemma_div_multiples_vanish(0, d);
        }
        -(qc as i64)
    }
}

/// Linearly interpolate a value `y` for a given `x` from the two data points
/// `(x0, y0)` and `(x1, y1)`, rounding the exact value toward minus infinity.
pub fn linear_interpolate(x: i64, x0: i64, x1: i64, y0: i64, y1: i64) -> (y: i64)
    requires
        x0 < x1,
        x0 <= x <= x1,
        -LUT_COORD_LIMIT <= x0 <= LUT_COORD_LIMIT,
        -LUT_COORD_LIMIT <= x1 <= LUT_COORD_LIMIT,
        -LUT_COORD_LIMIT <= y0 <= LUT_COORD_LIMIT,
        -LUT_COORD_LIMIT <= y1 <= LUT_COORD_LIMIT,
    ensures
        y == interp_value(x as int, x0 as int, x1 as int, y0 as int, y1 as int),
{
    let dx: i64 = x - x0;
    let dy: i64 = y1 - y0;
    let den: i64 = x1 - x0;
    proof {
        assert(-4_000_000_000_000_000_000 <= dx * dy <= 4_000_000_000_000_000_000)
            by (nonlinear_arith)
            requires
                0 <= dx <= 2_000_000_000,
                -2_000_000_000 <= dy <= 2_000_000_000,
        ;
    }
    let num: i64 = dx * dy;
    let q: i64 = div_floor(num, den);
    proof {
        assert(num as int <= den as int * 2_000_000_000 && den as int * (-2_000_000_000)
            <= num as int) by (nonlinear_arith)
            requires
                0 <= dx <= den,
                -2_000_000_000 <= dy <= 2_000_000_000,
                num == dx * dy,
                0 < den,
        ;
        lemma_div_is_ordered(num as int, den as int * 2_000_000_000, den as int);
        lemma_div_multiples_vanish(2_000_000_000, den as int);
        lemma_div_is_ordered(den as int * (-2_000_000_000), num as int, den as int);
        lemma_div_multiples_vanish(-2_000_000_000, den as int);
    }
    y0 + q
}

/// Compute the `y` value for a given `x` value from an `x`/`y` lookup table:
/// clamp outside the key range, interpolate inside it, and yield 0 for an
/// empty table.
pub fn find_value_from_lut(vec_lut_xy: &Vec<(i64, i64)>, x_val: i64) -> (y: i64)
    requires
        lut_keys_ascending(vec_lut_xy@),
        lut_coords_bounded(vec_lut_xy@),
    ensures
        y == lut_value(vec_lut_xy@, x_val as int),
        vec_lut_xy@.len() == 0 ==> y == 0,
        vec_lut_xy@.len() > 0 && x_val <= vec_lut_xy@[0].0 ==> y == vec_lut_xy@[0].1,
        vec_lut_xy@.len() > 0 && x_val >= vec_lut_xy@.last().0 ==> y == vec_lut_xy@.last().1,
{
    let n: usize = vec_lut_xy.len();
    if n == 0 {
        return 0;
    }
    if x_val <= vec_lut_xy[0].0 {
        return vec_lut_xy[0].1;
    }
    if x_val >= vec_lut_xy[n - 1].0 {
        proof {
            lemma_lut_value_high(vec_lut_xy@, x_val as int);
        }
        return vec_lut_xy[n - 1].1;
    }
    let mut i: usize = 0;
    while vec_lut_xy[i + 1].0 <= x_val
        invariant
            vec_lut_xy@.len() == n,
            lut_keys_ascending(vec_lut_xy@),
            lut_coords_bounded(vec_lut_xy@),
            0 <= i < n - 1,
            vec_lut_xy@[i as int].0 <= x_val,
            x_val < vec_lut_xy@[n - 1].0,
        decreases n - i,
    {
        i = i + 1;
    }
    proof {
        lemma_lut_value_segment(vec_lut_xy@, x_val as int, i as int);
    }
    linear_interpolate(x_val, vec_lut_xy[i].0, vec_lut_xy[i + 1].0, vec_lut_xy[i].1, vec_lut_xy[i
        + 1].1)
}

} // verus!
