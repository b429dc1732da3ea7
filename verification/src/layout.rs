//! The cursor that places cells one after another along a strip.

use vstd::prelude::*;
use crate::geometry::{Color, Pos, Rect, Region};
use crate::units::{max_i64, max_int, sat_add, saturate};

verus! {

/// The axis along which the cells of one line follow each other.
#[derive(Clone, Copy, Debug, PartialEq, Eq, Structural)]
pub enum CellDirection {
    /// Cells go from left to right; lines go from top to bottom.
    Horizontal,
    /// Cells go from top to bottom; lines go from left to right.
    Vertical,
}

/// The extent of a cell along one axis.
#[derive(Clone, Copy, Debug, PartialEq, Eq, Structural)]
pub enum CellSize {
    /// A length in layout units.
    Absolute(i64),
    /// Up to the far edge of the region.
    Remainder,
}

/// What is painted behind a cell before its content.
#[derive(Clone, Copy, Debug, PartialEq, Eq, Structural)]
pub enum Fill {
    /// Nothing.
    Plain,
    /// The faint stripe of an alternating row.
    Striped,
    /// A colour the caller chose.
    Colored(Color),
}

/// One placed cell: where the host draws its content, and how.
#[derive(Clone, Copy, Debug, PartialEq, Eq, Structural)]
pub struct Cell {
    /// The region reserved for the cell.
    pub rect: Rect,
    /// Whether content is clipped to `rect`.
    pub clip: bool,
    /// The background painted first.
    pub fill: Fill,
}

/// A cursor inside a region, the direction it moves in, and the farthest
/// corner any cell has reached so far.
#[derive(Clone, Copy, Debug, PartialEq, Eq, Structural)]
pub struct StripLayout {
    /// The region the strip lives in.
    pub rect: Rect,
    /// Spacing put after each cell, per axis.
    pub spacing: Pos,
    /// Direction of a line.
    pub direction: CellDirection,
    /// Where the next cell starts.
    pub cursor: Pos,
    /// The largest right and bottom coordinates reached.
    pub max: Pos,
}

impl StripLayout {
    /// The layout at the left top corner of `region`, nothing placed yet.
    pub open spec fn start(region: Region, direction: CellDirection) -> StripLayout {
        StripLayout {
            rect: region.rect,
            spacing: region.item_spacing,
            direction,
            cursor: region.rect.min,
            max: region.rect.min,
        }
    }

    /// The rectangle a cell of the given extents gets at the cursor.
    pub open spec fn cell_rect(self, width: CellSize, height: CellSize) -> Rect {
        Rect {
            min: self.cursor,
            max: Pos {
                x: match width {
                    CellSize::Absolute(w) => saturate(self.cursor.x + w) as i64,
                    CellSize::Remainder => self.rect.max.x,
                },
                y: match height {
                    CellSize::Absolute(h) => saturate(self.cursor.y + h) as i64,
                    CellSize::Remainder => self.rect.max.y,
                },
            },
        }
    }

    /// The layout after a cell took `rect`: the reached corner grows to cover
    /// it, and the cursor moves past it, and past the spacing, along the line.
    pub open spec fn placed(self, rect: Rect) -> StripLayout {
        let max = Pos {
            x: max_int(self.max.x as int, rect.max.x as int) as i64,
            y: max_int(self.max.y as int, rect.max.y as int) as i64,
        };
        match self.direction {
            CellDirection::Horizontal => StripLayout {
                max,
                cursor: Pos { x: saturate(rect.max.x + self.spacing.x) as i64, y: self.cursor.y },
                ..self
            },
            CellDirection::Vertical => StripLayout {
                max,
                cursor: Pos { x: self.cursor.x, y: saturate(rect.max.y + self.spacing.y) as i64 },
                ..self
            },
        }
    }

    /// The layout after a cell of the given extents was added.
    pub open spec fn advanced(self, width: CellSize, height: CellSize) -> StripLayout {
        self.placed(self.cell_rect(width, height))
    }

    /// The layout at the start of the next line: past everything reached on
    /// the cross axis, back at the region's edge on the line's axis.
    pub open spec fn line_ended(self) -> StripLayout {
        match self.direction {
            CellDirection::Horizontal => StripLayout {
                cursor: Pos { x: self.rect.min.x, y: self.max.y },
                ..self
            },
            CellDirection::Vertical => StripLayout {
                cursor: Pos { x: self.max.x, y: self.rect.min.y },
                ..self
            },
        }
    }

    /// The layout after a line that holds one cell of the given extents.
    pub open spec fn filled(self, width: i64, height: i64) -> StripLayout {
        self.advanced(CellSize::Absolute(width), CellSize::Absolute(height)).line_ended()
    }

    /// Whether this is a strip of horizontal lines with the cursor on a new
    /// line: below everything placed so far.
    pub open spec fn at_line_start(self) -> bool {
        self.direction == CellDirection::Horizontal && self.cursor.y == self.max.y
    }

    /// The layout after the first `count` of `widths` were added as cells
    /// of one `height`, one after the other.
    pub open spec fn line_of(self, widths: Seq<i64>, count: nat, height: i64) -> StripLayout
        decreases count,
    {
        if count == 0 {
            self
        } else {
            self.line_of(widths, (count - 1) as nat, height).advanced(
                CellSize::Absolute(widths[count - 1]),
                CellSize::Absolute(height),
            )
        }
    }

    /// The layout after the lines `from..to`, where line `i` holds the first
    /// `cells(i)` of `widths` as cells of one `height`.
    pub open spec fn lines_of(
        self,
        widths: Seq<i64>,
        cells: spec_fn(int) -> nat,
        height: i64,
        from: int,
        to: int,
    ) -> StripLayout
        decreases to - from,
    {
        if to <= from {
            self
        } else {
            self.lines_of(widths, cells, height, from, to - 1).line_of(
                widths,
                cells(to - 1),
                height,
            ).line_ended()
        }
    }

    /// The rectangle all cells together consumed: the region's left top
    /// corner to the farthest corner reached.
    pub open spec fn consumed(self) -> Rect {
        Rect { min: self.rect.min, max: self.max }
    }

    /// Starts a strip at the left top corner of `region`.
    pub fn new(region: Region, direction: CellDirection) -> (layout: Self)
        ensures
            layout == Self::start(region, direction),
    {
        StripLayout {
            rect: region.rect,
            spacing: region.item_spacing,
            direction,
            cursor: region.rect.min,
            max: region.rect.min,
        }
    }

    /// The cursor's vertical position.
    pub fn current_y(&self) -> (y: i64)
        ensures
            y == self.cursor.y,
    {
        self.cursor.y
    }

    fn rect_at_cursor(&self, width: CellSize, height: CellSize) -> (rect: Rect)
        ensures
            rect == self.cell_rect(width, height),
    {
        Rect {
            min: self.cursor,
            max: Pos {
                x: match width {
                    CellSize::Absolute(w) => sat_add(self.cursor.x, w),
                    CellSize::Remainder => self.rect.max.x,
                },
                y: match height {
                    CellSize::Absolute(h) => sat_add(self.cursor.y, h),
                    CellSize::Remainder => self.rect.max.y,
                },
            },
        }
    }

    fn set_pos(&mut self, rect: Rect)
        ensures
            *final(self) == old(self).placed(rect),
    {
        self.max.x = max_i64(self.max.x, rect.max.x);
        self.max.y = max_i64(self.max.y, rect.max.y);
        match self.direction {
            CellDirection::Horizontal => {
                self.cursor.x = sat_add(rect.max.x, self.spacing.x);
            },
            CellDirection::Vertical => {
                self.cursor.y = sat_add(rect.max.y, self.spacing.y);
            },
        }
    }

    /// Reserves a cell of the given extents at the cursor and moves the
    /// cursor past it. The host draws the content into the cell's rectangle.
    pub fn add(&mut self, width: CellSize, height: CellSize, clip: bool) -> (cell: Cell)
        ensures
            cell == (Cell { rect: old(self).cell_rect(width, height), clip, fill: Fill::Plain }),
            *final(self) == old(self).advanced(width, height),
    {
        let rect = self.rect_at_cursor(width, height);
        self.set_pos(rect);
        Cell { rect, clip, fill: Fill::Plain }
    }

    /// As [`StripLayout::add`], with the stripe of an alternating row behind
    /// the cell.
    pub fn add_striped(&mut self, width: CellSize, height: CellSize, clip: bool) -> (cell: Cell)
        ensures
            cell == (Cell { rect: old(self).cell_rect(width, height), clip, fill: Fill::Striped }),
            *final(self) == old(self).advanced(width, height),
    {
        let placed = self.add(width, height, clip);
        Cell { rect: placed.rect, clip, fill: Fill::Striped }
    }

    /// As [`StripLayout::add`], with `color` behind the cell.
    pub fn add_colored(
        &mut self,
        width: CellSize,
        height: CellSize,
        clip: bool,
        color: Color,
    ) -> (cell: Cell)
        ensures
            cell == (Cell {
                rect: old(self).cell_rect(width, height),
                clip,
                fill: Fill::Colored(color),
            }),
            *final(self) == old(self).advanced(width, height),
    {
        let placed = self.add(width, height, clip);
        Cell { rect: placed.rect, clip, fill: Fill::Colored(color) }
    }

    /// Ends the current line and puts the cursor at the start of the next.
    pub fn end_line(&mut self)
        ensures
            *final(self) == old(self).line_ended(),
    {
        match self.direction {
            CellDirection::Horizontal => {
                self.cursor.y = self.max.y;
                self.cursor.x = self.rect.min.x;
            },
            CellDirection::Vertical => {
                self.cursor.x = self.max.x;
                self.cursor.y = self.rect.min.y;
            },
        }
    }

    /// Closes the strip and gives the rectangle it consumed, for the host to
    /// allocate so that a scroll area around the strip knows its size.
    pub fn allocate_rect(self) -> (rect: Rect)
        ensures
            rect == self.consumed(),
    {
        Rect { min: self.rect.min, max: self.max }
    }
}

/// A line of one or more cells of one height, none of it negative, moves
/// the start of the next line down by that height, whatever the widths.
pub proof fn lemma_line_moves_down(
    layout: StripLayout,
    widths: Seq<i64>,
    count: nat,
    height: i64,
)
    requires
        layout.at_line_start(),
        count >= 1,
        height >= 0,
    ensures
        layout.line_of(widths, count, height).line_ended().at_line_start(),
        layout.line_of(widths, count, height).line_ended().cursor.y == saturate(
            layout.cursor.y + height,
        ),
        layout.line_of(widths, count, height).line_ended().rect == layout.rect,
        layout.line_of(widths, count, height).line_ended().cursor.x == layout.rect.min.x,
{
    lemma_line_reach(layout, widths, count, height);
}

proof fn lemma_line_reach(layout: StripLayout, widths: Seq<i64>, count: nat, height: i64)
    requires
        layout.at_line_start(),
        count >= 1,
        height >= 0,
    ensures
        layout.line_of(widths, count, height).direction == CellDirection::Horizontal,
        layout.line_of(widths, count, height).rect == layout.rect,
        layout.line_of(widths, count, height).cursor.y == layout.cursor.y,
        layout.line_of(widths, count, height).max.y == saturate(layout.cursor.y + height),
    decreases count,
{
    if count > 1 {
        lemma_line_reach(layout, widths, (count - 1) as nat, height);
    } else {
        assert(layout.line_of(widths, 0, height) == layout);
    }
}

/// Lines of one height, none of it negative, each with at least one cell,
/// move the start of the next line down by that height times their number,
/// as long as the strip stays within the coordinate range.
pub proof fn lemma_lines_move_down(
    layout: StripLayout,
    widths: Seq<i64>,
    cells: spec_fn(int) -> nat,
    height: i64,
    from: int,
    to: int,
)
    requires
        layout.at_line_start(),
        height >= 0,
        from <= to,
        forall|i: int| from <= i < to ==> #[trigger] cells(i) >= 1,
        layout.cursor.y + (to - from) * height <= i64::MAX,
    ensures
        layout.lines_of(widths, cells, height, from, to).at_line_start(),
        layout.lines_of(widths, cells, height, from, to).cursor.y == layout.cursor.y + (to - from)
            * height,
        layout.lines_of(widths, cells, height, from, to).rect == layout.rect,
    decreases to - from,
{
    if from < to {
        assert((to - from) * height == (to - 1 - from) * height + height) by (nonlinear_arith);
        assert(0 <= (to - 1 - from) * height) by (nonlinear_arith)
            requires
                from <= to - 1,
                height >= 0,
        ;
        lemma_lines_move_down(layout, widths, cells, height, from, to - 1);
        let before = layout.lines_of(widths, cells, height, from, to - 1);
        lemma_line_moves_down(before, widths, cells(to - 1), height);
    } else {
        assert((to - from) * height == 0) by (nonlinear_arith)
            requires
                to - from == 0,
        ;
    }
}

} // verus!
