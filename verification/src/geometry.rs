//! Points, rectangles and the facts the engine reads from its host region.

use vstd::prelude::*;
use crate::units::{sat_sub, saturate};

verus! {

/// A position in layout units.
#[derive(Clone, Copy, Debug, PartialEq, Eq, Structural)]
pub struct Pos {
    pub x: i64,
    pub y: i64,
}

/// An axis-aligned rectangle, from `min` (left, top) to `max` (right, bottom).
#[derive(Clone, Copy, Debug, PartialEq, Eq, Structural)]
pub struct Rect {
    pub min: Pos,
    pub max: Pos,
}

/// A background colour, one byte per channel.
#[derive(Clone, Copy, Debug, PartialEq, Eq, Structural)]
pub struct Color {
    pub r: u8,
    pub g: u8,
    pub b: u8,
    pub a: u8,
}

/// What the engine reads of the host region it lays a table out in.
#[derive(Clone, Copy, Debug, PartialEq, Eq, Structural)]
pub struct Region {
    /// The rectangle still free for content.
    pub rect: Rect,
    /// Spacing between neighbouring items, per axis.
    pub item_spacing: Pos,
    /// Width the host reserves for a vertical scroll bar.
    pub scroll_bar_width: i64,
}

impl Rect {
    /// The y coordinate of the top edge.
    pub fn top(&self) -> (y: i64)
        ensures
            y == self.min.y,
    {
        self.min.y
    }

    /// The y coordinate of the bottom edge.
    pub fn bottom(&self) -> (y: i64)
        ensures
            y == self.max.y,
    {
        self.max.y
    }

    /// The extent along x, saturated.
    pub open spec fn spec_width(self) -> int {
        saturate(self.max.x - self.min.x)
    }

    /// The extent along x.
    pub fn width(&self) -> (w: i64)
        ensures
            w as int == self.spec_width(),
    {
        sat_sub(self.max.x, self.min.x)
    }
}

} // verus!
