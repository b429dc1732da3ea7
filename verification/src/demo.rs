//! A small table that shows off both kinds of body.

use vstd::prelude::*;
use crate::geometry::Region;
use crate::sizing::Size;
use crate::table::TableBuilder;
use crate::units::UNITS_PER_POINT;

verus! {

/// Height of the demo's header row.
pub const HEADER_HEIGHT: i64 = 20 * UNITS_PER_POINT;

/// Height of every row of the demo's virtual body.
pub const VIRTUAL_ROW_HEIGHT: i64 = 20 * UNITS_PER_POINT;

/// Number of rows of the demo's virtual body.
pub const VIRTUAL_ROWS: usize = 100_000;

/// Width of the demo's left column.
pub const LEFT_WIDTH: i64 = 120 * UNITS_PER_POINT;

/// Least width of the demo's middle column, which takes what is left.
pub const MIDDLE_MINIMUM: i64 = 180 * UNITS_PER_POINT;

/// Width of the demo's right column.
pub const RIGHT_WIDTH: i64 = 100 * UNITS_PER_POINT;

/// Number of rows of the demo's plain body.
pub const PLAIN_ROWS: usize = 100;

/// Shows off a table with dynamic layout.
pub struct TableDemo {
    /// Whether the body is built with virtual rows.
    pub virtual_scrool: bool,
}

impl Default for TableDemo {
    fn default() -> (demo: Self)
        ensures
            !demo.virtual_scrool,
    {
        TableDemo { virtual_scrool: false }
    }
}

/// The column hints of the demo: fixed, growing with a minimum, fixed.
pub open spec fn demo_columns() -> Seq<Size> {
    seq![
        Size::Absolute(LEFT_WIDTH),
        Size::RemainderMinimum(MIDDLE_MINIMUM),
        Size::Absolute(RIGHT_WIDTH),
    ]
}

/// The height of row `index` of the plain body: 25 points for every eighth
/// row, 30 points for the rows half way between them, 20 points for the rest.
pub open spec fn plain_row_height(index: int) -> int {
    if index % 8 == 0 {
        25 * UNITS_PER_POINT
    } else if index % 8 == 4 {
        30 * UNITS_PER_POINT
    } else {
        20 * UNITS_PER_POINT
    }
}

impl TableDemo {
    /// The title of the demo.
    pub fn name(&self) -> (title: &'static str)
        ensures
            title@ == "☰ Table Demo"@,
    {
        "☰ Table Demo"
    }

    /// The builder of the demo's table in `ui`: striped, three columns.
    pub fn table(&self, ui: Region) -> (builder: TableBuilder)
        ensures
            builder.ui == ui,
            builder.sizing@ == demo_columns(),
            builder.scroll,
            builder.striped,
    {
        let builder = TableBuilder::new(ui).striped(true).column(Size::Absolute(LEFT_WIDTH)).column(
            Size::RemainderMinimum(MIDDLE_MINIMUM),
        ).column(Size::Absolute(RIGHT_WIDTH));
        proof {
            assert(builder.sizing@ =~= demo_columns());
        }
        builder
    }

    /// The height of row `index` of the plain body.
    pub fn row_height(&self, index: usize) -> (height: i64)
        ensures
            height as int == plain_row_height(index as int),
    {
        let phase: usize = index % 8;
        if phase == 0 {
            25 * UNITS_PER_POINT
        } else if phase == 4 {
            30 * UNITS_PER_POINT
        } else {
            20 * UNITS_PER_POINT
        }
    }
}

} // verus!
