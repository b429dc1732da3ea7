//! Saturating arithmetic on layout units.

use vstd::prelude::*;

verus! {

/// Layout units in one point of the host toolkit, for hosts that measure in
/// points.
pub const UNITS_PER_POINT: i64 = 64;

/// The value of `v` pinned into the `i64` range.
pub open spec fn saturate(v: int) -> int {
    if v < i64::MIN as int {
        i64::MIN as int
    } else if v > i64::MAX as int {
        i64::MAX as int
    } else {
        v
    }
}

/// The value of `v` pinned into the `usize` range.
pub open spec fn saturate_count(v: int) -> int {
    if v < 0 {
        0
    } else if v > usize::MAX as int {
        usize::MAX as int
    } else {
        v
    }
}

/// The larger of two integers.
pub open spec fn max_int(a: int, b: int) -> int {
    if a >= b { a } else { b }
}

/// The smaller of two integers.
pub open spec fn min_int(a: int, b: int) -> int {
    if a <= b { a } else { b }
}

/// The quotient of `a` by a positive `b`, rounded up.
pub open spec fn ceil_div(a: int, b: int) -> int {
    -((-a) / b)
}

/// Pins a wide intermediate value into the `i64` range.
pub(crate) fn saturate_wide(v: i128) -> (r: i64)
    ensures
        r as int == saturate(v as int),
{
    if v < i64::MIN as i128 {
        i64::MIN
    } else if v > i64::MAX as i128 {
        i64::MAX
    } else {
        v as i64
    }
}

/// Pins a wide intermediate value into the `usize` range.
pub(crate) fn saturate_wide_count(v: i128) -> (r: usize)
    ensures
        r as int == saturate_count(v as int),
{
    if v < 0 {
        0
    } else if v > usize::MAX as i128 {
        usize::MAX
    } else {
        v as usize
    }
}

/// Saturating sum of two coordinates.
pub fn sat_add(a: i64, b: i64) -> (r: i64)
    ensures
        r as int == saturate(a + b),
{
    saturate_wide(a as i128 + b as i128)
}

/// Saturating difference of two coordinates.
pub fn sat_sub(a: i64, b: i64) -> (r: i64)
    ensures
        r as int == saturate(a - b),
{
    saturate_wide(a as i128 - b as i128)
}

/// Saturating product of a count and a length.
pub fn sat_scale(count: usize, length: i64) -> (r: i64)
    ensures
        r as int == saturate(count * length),
{
    assert(-0x8000_0000_0000_0000_0000_0000_0000_0000 < (count as int) * (length as int)
        < 0x8000_0000_0000_0000_0000_0000_0000_0000) by (nonlinear_arith)
        requires
            0 <= count as int <= 0xffff_ffff_ffff_ffff,
            -0x8000_0000_0000_0000 <= length as int <= 0x7fff_ffff_ffff_ffff,
    ;
    saturate_wide(count as i128 * length as i128)
}

/// The larger of two coordinates.
pub(crate) fn max_i64(a: i64, b: i64) -> (r: i64)
    ensures
        r as int == max_int(a as int, b as int),
{
    if a >= b { a } else { b }
}

/// The value of `v` pinned into the `i128` range without its lowest value.
pub open spec fn saturate_wide_range(v: int) -> int {
    if v < -(i128::MAX as int) {
        -(i128::MAX as int)
    } else if v > i128::MAX as int {
        i128::MAX as int
    } else {
        v
    }
}

/// Saturating difference of two wide intermediate values.
pub(crate) fn sat_sub_wide(a: i128, b: i128) -> (r: i128)
    requires
        a > i128::MIN,
        b > i128::MIN,
    ensures
        r as int == saturate_wide_range(a - b),
{
    if b >= 0 {
        if a < -i128::MAX + b {
            -i128::MAX
        } else {
            a - b
        }
    } else {
        if a > i128::MAX + b {
            i128::MAX
        } else {
            a - b
        }
    }
}

/// Floor of `a / b` for a positive divisor.
pub(crate) fn floor_div_wide(a: i128, b: i128) -> (q: i128)
    requires
        0 < b <= 0x1_0000_0000_0000_0000,
        a > i128::MIN,
    ensures
        q as int == (a as int) / (b as int),
{
    if a >= 0 {
        let n: u128 = a as u128;
        let d: u128 = b as u128;
        let q: u128 = n / d;
        assert(q <= n) by (nonlinear_arith)
            requires
                q as int == (n as int) / (d as int),
                d > 0,
        ;
        q as i128
    } else {
        let m: u128 = (-a) as u128;
        let d: u128 = b as u128;
        let up: u128 = (m + d - 1) / d;
        assert(up as int * b as int <= m + d - 1 < up as int * b as int + b as int && up <= m + d
            - 1 && up <= m) by (nonlinear_arith)
            requires
                up as int == (m as int + d as int - 1) / (d as int),
                d > 0,
                m > 0,
                d as int == b as int,
        ;
        let q: i128 = -(up as i128);
        assert(q as int == (a as int) / (b as int)) by (nonlinear_arith)
            requires
                b > 0,
                q as int == -(up as int),
                a as int == -(m as int),
                up as int * b as int <= m + b - 1,
                m + b - 1 < up as int * b as int + b as int,
        ;
        q
    }
}

/// Ceiling of `a / b` for a positive divisor.
pub(crate) fn ceil_div_wide(a: i128, b: i128) -> (q: i128)
    requires
        0 < b <= 0x1_0000_0000_0000_0000,
        a > i128::MIN,
    ensures
        q as int == ceil_div(a as int, b as int),
{
    let f: i128 = floor_div_wide(-a, b);
    assert(-(i128::MAX as int) <= f as int <= i128::MAX as int) by (nonlinear_arith)
        requires
            f as int == (-(a as int)) / (b as int),
            b > 0,
            -(i128::MAX as int) <= -(a as int) <= i128::MAX as int,
    ;
    -f
}

/// Dividing by a count saturates alike whether or not the dividend was
/// first pinned into the wide range: what the wide range cuts off is so
/// large that its quotient lies beyond the `i64` range anyway.
pub(crate) proof fn lemma_wide_quotient_saturates(v: int, count: int)
    requires
        0 < count <= 0xffff_ffff_ffff_ffff,
    ensures
        saturate(saturate_wide_range(v) / count) == saturate(v / count),
{
    let limit = i128::MAX as int;
    if v > limit {
        assert(v / count >= 0x8000_0000_0000_0000 && limit / count >= 0x8000_0000_0000_0000)
            by (nonlinear_arith)
            requires
                0 < count <= 0xffff_ffff_ffff_ffff,
                v > limit,
                limit == 0x7fff_ffff_ffff_ffff_ffff_ffff_ffff_ffff,
        ;
    } else if v < -limit {
        assert(v / count < -0x8000_0000_0000_0000 && (-limit) / count < -0x8000_0000_0000_0000)
            by (nonlinear_arith)
            requires
                0 < count <= 0xffff_ffff_ffff_ffff,
                v < -limit,
                limit == 0x7fff_ffff_ffff_ffff_ffff_ffff_ffff_ffff,
        ;
    }
}

} // verus!
