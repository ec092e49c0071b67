//! Fixed-point arithmetic shared by the whole scene.
//!
//! A coordinate is an `i64` count of sub-pixel units, `UNIT` of them to one
//! physical pixel. A ratio (device pixel ratio, smoothing factor, random
//! fraction) is a `u32` count of the same units, so the ratio one is `UNIT`.

use vstd::prelude::*;

verus! {

/// Coordinate units per physical pixel, and the fixed-point value of the ratio one.
pub const UNIT: i64 = 65536;

/// Half of `UNIT`: the rounding offset of a division by `UNIT`.
pub const HALF_UNIT: i64 = 32768;

/// Largest magnitude of a coordinate that the scene stores.
pub const COORD_LIMIT: i64 = 0x4000_0000_0000_0000;

/// Whether `v` is a coordinate that the scene can store.
pub open spec fn in_range(v: int) -> bool {
    -(COORD_LIMIT as int) <= v <= COORD_LIMIT as int
}

/// The quotient `n / UNIT` rounded to the nearest integer, a tie going away
/// from zero.
pub open spec fn round_units(n: int) -> int {
    if n >= 0 {
        (n + 32768) / 65536
    } else {
        -((32768 - n) / 65536)
    }
}

/// Rounding picks a nearest integer: the rounded quotient is at most half a
/// unit away from the exact one.
pub proof fn lemma_round_units_nearest(n: int)
    ensures
        -(HALF_UNIT as int) <= round_units(n) * UNIT - n <= HALF_UNIT as int,
{
}

/// `value` multiplied by the fixed-point `ratio`, rounded to the nearest unit.
pub open spec fn scaled(value: int, ratio: int) -> int {
    round_units(value * ratio)
}

/// Multiplies a coordinate by a fixed-point ratio, rounding to the nearest
/// unit with ties away from zero. The result is wide enough for every input.
pub fn scale(value: i64, ratio: u32) -> (r: i128)
    ensures
        r == scaled(value as int, ratio as int),
{
    scale_wide(value as i128, ratio)
}

/// `scale` for the difference of two coordinates, which may not fit an `i64`.
fn scale_wide(value: i128, ratio: u32) -> (r: i128)
    requires
        -0x1_0000_0000_0000_0000 <= value <= 0x1_0000_0000_0000_0000,
    ensures
        r == scaled(value as int, ratio as int),
        -0x1_0000_0000_0000_0000_0000 <= r <= 0x1_0000_0000_0000_0000_0000,
{
    let magnitude: u128 = if value >= 0 {
        value as u128
    } else {
        (-value) as u128
    };
    assert(magnitude * ratio <= 0x1_0000_0000_0000_0000 * 0xffff_ffff) by (nonlinear_arith)
        requires
            magnitude <= 0x1_0000_0000_0000_0000,
            ratio <= 0xffff_ffff,
    ;
    let product: u128 = magnitude * (ratio as u128);
    let quotient: u128 = (product + 32768) / 65536;
    assert(value * ratio == if value >= 0 { product as int } else { -(product as int) })
        by (nonlinear_arith)
        requires
            product == magnitude * ratio,
            magnitude == if value >= 0 { value as int } else { -(value as int) },
    ;
    if value >= 0 {
        quotient as i128
    } else {
        -(quotient as i128)
    }
}

/// A position in the plane, in coordinate units.
#[derive(Clone, Copy, Debug, PartialEq, Eq, Structural)]
pub struct Point {
    pub x: i64,
    pub y: i64,
}

/// The length of `pixels` whole pixels, in coordinate units.
pub fn to_units(pixels: u32) -> (r: i64)
    ensures
        r == pixels * UNIT,
        0 <= r < COORD_LIMIT,
{
    (pixels as i64) * UNIT
}

/// The physical extent of a surface that is `css` logical pixels long at the
/// device pixel ratio `ratio`: their product rounded to the nearest pixel and
/// kept within what a `u32` holds.
pub open spec fn physical_extent(css: int, ratio: int) -> int {
    let exact = scaled(css, ratio);
    if exact < 0 {
        0
    } else if exact > u32::MAX {
        u32::MAX as int
    } else {
        exact
    }
}

/// Computes `physical_extent`.
pub fn physical_size(css: i32, ratio: u32) -> (r: u32)
    ensures
        r == physical_extent(css as int, ratio as int),
{
    let exact: i128 = scale(css as i64, ratio);
    if exact < 0 {
        0
    } else if exact > 0xffff_ffff {
        0xffff_ffff
    } else {
        exact as u32
    }
}

/// The point a fraction `t` of the way from `start` to `end`.
pub open spec fn lerp_at(start: int, end: int, t: int) -> int {
    start + scaled(end - start, t)
}

/// A scaling by a ratio of at most one moves a value no further from zero,
/// a scaling by one leaves it where it is, and a scaling by zero gives zero.
pub proof fn lemma_scaled_within(value: int, ratio: int)
    requires
        0 <= ratio <= UNIT,
    ensures
        value >= 0 ==> 0 <= scaled(value, ratio) <= value,
        value <= 0 ==> value <= scaled(value, ratio) <= 0,
        scaled(value, UNIT as int) == value,
        scaled(value, 0) == 0,
{
    let m = if value >= 0 { value } else { -value };
    assert(0 <= m * ratio <= m * 65536) by (nonlinear_arith)
        requires
            0 <= m,
            0 <= ratio <= 65536,
    ;
    assert(value * ratio == if value >= 0 { m * ratio } else { -(m * ratio) })
        by (nonlinear_arith)
        requires
            m == if value >= 0 { value } else { -value },
    ;
    assert(value * 0 == 0);
    assert(value * 65536 == 65536 * value);
}

/// Linear interpolation: `start` moved towards `end` by the fraction `t`. At
/// `t` zero the result is `start`, at `t` one it is `end`, and up to there it
/// lies between the two; beyond one it lies beyond `end`, which is why the
/// result is wide.
pub fn lerp(start: i64, end: i64, t: u32) -> (r: i128)
    ensures
        r == lerp_at(start as int, end as int, t as int),
        t <= UNIT && start <= end ==> start <= r <= end,
        t <= UNIT && end <= start ==> end <= r <= start,
        t == 0 ==> r == start,
        t == UNIT ==> r == end,
{
    proof {
        if t <= UNIT {
            lemma_scaled_within(end - start, t as int);
        }
    }
    let distance: i128 = (end as i128) - (start as i128);
    let moved: i128 = scale_wide(distance, t);
    (start as i128) + moved
}

/// A draw between `min` and `max` chosen by `sample`, which stands for the
/// fraction `sample / 2^32` of the way from `min` to `max`, rounded down.
pub open spec fn range_at(min: int, max: int, sample: int) -> int {
    min + (sample * (max - min)) / 0x1_0000_0000
}

/// A draw falls within its range, and short of `max` unless the range is empty.
pub proof fn lemma_range_at_within(min: int, max: int, sample: int)
    requires
        0 <= sample <= u32::MAX,
    ensures
        min <= max ==> min <= range_at(min, max, sample) <= max,
        min < max ==> range_at(min, max, sample) < max,
        max <= min ==> max <= range_at(min, max, sample) <= min,
{
    let span = if min <= max { max - min } else { min - max };
    assert(0 <= sample * span <= 0xffff_ffff * span) by (nonlinear_arith)
        requires
            0 <= sample <= 0xffff_ffff,
            0 <= span,
    ;
    assert(sample * (max - min) == if min <= max { sample * span } else { -(sample * span) })
        by (nonlinear_arith)
        requires
            span == if min <= max { max - min } else { min - max },
    ;
}

/// Maps a uniform 32-bit sample to the range from `min` to `max`: `min` for
/// the sample zero, and never `max` unless the range is empty. With the two
/// ends the other way round the draw still lies between them.
pub fn rand_range(min: i64, max: i64, sample: u32) -> (r: i64)
    ensures
        r == range_at(min as int, max as int, sample as int),
        min <= max ==> min <= r <= max,
        min < max ==> r < max,
        max <= min ==> max <= r <= min,
{
    proof {
        lemma_range_at_within(min as int, max as int, sample as int);
    }
    let span: i128 = (max as i128) - (min as i128);
    let magnitude: u128 = if span >= 0 {
        span as u128
    } else {
        (-span) as u128
    };
    assert(0 <= sample * magnitude <= 0xffff_ffff * magnitude) by (nonlinear_arith)
        requires
            0 <= sample <= 0xffff_ffff,
            0 <= magnitude,
    ;
    assert(sample * span == if span >= 0 { sample * magnitude } else { -(sample * magnitude) })
        by (nonlinear_arith)
        requires
            magnitude == if span >= 0 { span as int } else { -(span as int) },
    ;
    let product: u128 = (sample as u128) * magnitude;
    if span >= 0 {
        let offset: u128 = product / 0x1_0000_0000;
        ((min as i128) + (offset as i128)) as i64
    } else {
        // rounding down, away from zero here
        let offset: u128 = (product + 0xffff_ffff) / 0x1_0000_0000;
        ((min as i128) - (offset as i128)) as i64
    }
}

} // verus!
