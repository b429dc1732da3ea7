//! Which rows of a uniform-height body are in view.

use vstd::prelude::*;
use crate::units::{
    ceil_div,
    ceil_div_wide,
    floor_div_wide,
    min_int,
    sat_scale,
    saturate,
    saturate_count,
    saturate_wide_count,
};

verus! {

/// The rows to build, `start..end`, and the heights that stand in for the
/// rows skipped above and below them.
#[derive(Clone, Copy, Debug, PartialEq, Eq, Structural)]
pub struct RowWindow {
    /// Index of the first row to build.
    pub start: usize,
    /// One past the index of the last row to build.
    pub end: usize,
    /// Height reserved for the rows before `start`.
    pub filler_above: i64,
    /// Height reserved for the rows from `end` on.
    pub filler_below: i64,
}

/// Index of the first row that can be in view, for a body whose start lies
/// `delta` below the top of the viewport (above it when `delta` is negative).
pub open spec fn first_visible(delta: int, height: int) -> int {
    if delta < 0 {
        saturate_count((-delta) / height)
    } else {
        0
    }
}

/// Number of rows of `height` it takes to cover `viewport`.
pub open spec fn rows_in_view(viewport: int, height: int) -> int {
    saturate_count(ceil_div(viewport, height))
}

/// One past the last row to build.
pub open spec fn end_visible(delta: int, viewport: int, height: int, rows: int) -> int {
    min_int(first_visible(delta, height) + rows_in_view(viewport, height), rows)
}

/// The window of rows to build out of `rows` rows of `height` each.
pub open spec fn window_of(delta: int, viewport: int, height: int, rows: int) -> RowWindow {
    let start = first_visible(delta, height);
    let end = end_visible(delta, viewport, height, rows);
    RowWindow {
        start: start as usize,
        end: end as usize,
        filler_above: saturate(start * height) as i64,
        filler_below: saturate((rows - end) * height) as i64,
    }
}

/// Computes the window of rows to build.
///
/// `delta` is the body's start minus the viewport's top, `viewport` the
/// viewport's height, `height` the height of every row.
pub fn visible_rows(delta: i64, viewport: i64, height: i64, rows: usize) -> (window: RowWindow)
    requires
        height > 0,
    ensures
        window == window_of(delta as int, viewport as int, height as int, rows as int),
        window.end <= rows,
{
    let start: usize = if delta < 0 {
        saturate_wide_count(floor_div_wide(-(delta as i128), height as i128))
    } else {
        0
    };
    let count: usize = saturate_wide_count(ceil_div_wide(viewport as i128, height as i128));
    let reach: u128 = start as u128 + count as u128;
    let end: usize = if reach < rows as u128 {
        reach as usize
    } else {
        rows
    };
    RowWindow {
        start,
        end,
        filler_above: sat_scale(start, height),
        filler_below: sat_scale(rows - end, height),
    }
}

/// Wherever the body is scrolled to, short of past its last row, the rows
/// built and the two fillers are together as high as all the rows, as long
/// as that height fits the coordinate range.
pub proof fn lemma_window_keeps_total_height(delta: int, viewport: int, height: int, rows: int)
    requires
        height > 0,
        0 <= rows <= usize::MAX,
        first_visible(delta, height) <= rows,
        rows * height <= i64::MAX,
    ensures
        ({
            let window = window_of(delta, viewport, height, rows);
            &&& window.start <= window.end <= rows
            &&& window.filler_above == window.start * height
            &&& window.filler_below == (rows - window.end) * height
            &&& window.filler_above + (window.end - window.start) * height + window.filler_below
                == rows * height
        }),
{
    let start = first_visible(delta, height);
    let end = end_visible(delta, viewport, height, rows);
    assert(0 <= start <= end <= rows);
    assert(0 <= start * height <= rows * height) by (nonlinear_arith)
        requires
            0 <= start <= rows,
            height > 0,
    ;
    assert(0 <= (rows - end) * height <= rows * height) by (nonlinear_arith)
        requires
            0 <= end <= rows,
            height > 0,
    ;
    assert(start * height + (end - start) * height + (rows - end) * height == rows * height)
        by (nonlinear_arith);
}

/// The window never holds more rows than it takes to cover the viewport.
pub proof fn lemma_window_fits_viewport(delta: int, viewport: int, height: int, rows: int)
    requires
        height > 0,
        0 <= rows <= usize::MAX,
    ensures
        window_of(delta, viewport, height, rows).end - window_of(
            delta,
            viewport,
            height,
            rows,
        ).start <= rows_in_view(viewport, height),
{
    let start = first_visible(delta, height);
    let end = end_visible(delta, viewport, height, rows);
    assert(0 <= end <= rows);
    assert(0 <= start <= usize::MAX);
}

} // verus!
