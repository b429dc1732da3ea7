//! Table with an optional fixed header and a scrolling body.
//!
//! Cell widths are worked out once from the size hints, so a table can look
//! like this:
//!
//! | fixed size | all available space/minimum | 30% of available width | fixed size |
//!
//! Columns and rows do not grow with their content. The engine places cells;
//! the host draws into them and reports back what was clicked.

use vstd::prelude::*;
use crate::geometry::{Color, Rect, Region};
use crate::layout::{
    lemma_line_moves_down,
    lemma_lines_move_down,
    Cell,
    CellDirection,
    CellSize,
    Fill,
    StripLayout,
};
use crate::sizing::{resolved_lengths, Size, Sizing};
use crate::units::{sat_sub, saturate, saturate_wide};
use crate::window::{lemma_window_keeps_total_height, visible_rows, window_of, RowWindow};

verus! {

/// A sequence of stored lengths as mathematical integers.
pub open spec fn as_lengths(stored: Seq<i64>) -> Seq<int> {
    stored.map_values(|w: i64| w as int)
}

fn copy_lengths(lengths: &Vec<i64>) -> (copy: Vec<i64>)
    ensures
        copy@ == lengths@,
{
    let mut copy: Vec<i64> = Vec::new();
    let mut i: usize = 0;
    while i < lengths.len()
        invariant
            0 <= i <= lengths@.len(),
            copy@ == lengths@.take(i as int),
        decreases lengths@.len() - i,
    {
        copy.push(lengths[i]);
        proof {
            assert(lengths@.take(i + 1) =~= lengths@.take(i as int).push(lengths@[i as int]));
        }
        i = i + 1;
    }
    proof {
        assert(lengths@.take(lengths@.len() as int) =~= lengths@);
    }
    copy
}

/// Builder for a table: collects the column hints and the two switches.
pub struct TableBuilder {
    /// The host region the table is laid out in.
    pub ui: Region,
    /// One size hint per column, in column order.
    pub sizing: Sizing,
    /// Whether the body scrolls.
    pub scroll: bool,
    /// Whether every other row gets a stripe.
    pub striped: bool,
}

/// The state between the header and the body: the widths, resolved once,
/// and the two switches.
pub struct Table {
    /// One width per column.
    pub widths: Vec<i64>,
    /// Whether the body scrolls.
    pub scroll: bool,
    /// Whether every other row gets a stripe.
    pub striped: bool,
}

/// The body of a table: the strip its rows go into, and the viewport that
/// was visible when it was opened.
pub struct TableBody {
    /// The strip the rows are placed in.
    pub layout: StripLayout,
    /// One width per column.
    pub widths: Vec<i64>,
    /// Whether every other row gets a stripe.
    pub striped: bool,
    /// Number of rows opened with [`TableBody::row`] so far.
    pub row_nr: usize,
    /// Top of the viewport.
    pub start_y: i64,
    /// Bottom of the viewport.
    pub end_y: i64,
}

/// One row being filled: a copy of the strip to place cells in, and the
/// widths that are still to be used.
pub struct TableRow {
    /// The strip, as this row has advanced it.
    pub layout: StripLayout,
    /// One width per column.
    pub widths: Vec<i64>,
    /// Number of columns already emitted.
    pub next: usize,
    /// Whether this row's cells get a stripe.
    pub striped: bool,
    /// Background of this row's cells, if the caller chose one.
    pub bg_color: Option<Color>,
    /// Height of this row's cells.
    pub height: i64,
    /// Whether a cell of this row was reported as clicked.
    pub clicked: bool,
}

/// A body in the middle of [`TableBody::rows`]: the rows `next..end` are
/// still to be built, then the filler below them.
pub struct VirtualRows {
    /// The body the rows go into.
    pub body: TableBody,
    /// Height of every row.
    pub height: i64,
    /// Number of rows in all, built or not.
    pub rows: usize,
    /// Index of the next row to build.
    pub next: usize,
    /// One past the index of the last row to build.
    pub end: usize,
}

impl TableBuilder {
    /// The width left for the columns: the region's width without the
    /// spacing at its two sides and, where the body scrolls, the scroll bar.
    pub open spec fn spec_available_width(self) -> int {
        saturate(
            self.ui.rect.spec_width() - 2 * self.ui.item_spacing.x - if self.scroll {
                self.ui.scroll_bar_width as int
            } else {
                0
            },
        )
    }

    /// The column widths this builder resolves to.
    pub open spec fn resolved_widths(self) -> Seq<int> {
        resolved_lengths(
            self.sizing@,
            self.spec_available_width(),
            self.ui.item_spacing.x as int,
        )
    }

    /// A builder without columns, scrolling and not striped.
    pub fn new(ui: Region) -> (builder: Self)
        ensures
            builder.ui == ui,
            builder.sizing@ == Seq::<Size>::empty(),
            builder.scroll,
            !builder.striped,
    {
        let sizing = Sizing::new();
        TableBuilder { ui, sizing, scroll: true, striped: false }
    }

    /// Lets the body scroll or not (it does unless told otherwise).
    pub fn scroll(self, scroll: bool) -> (builder: Self)
        ensures
            builder == (TableBuilder { scroll, ..self }),
    {
        let mut builder = self;
        builder.scroll = scroll;
        builder
    }

    /// Stripes every other row or not (it does not unless told to).
    pub fn striped(self, striped: bool) -> (builder: Self)
        ensures
            builder == (TableBuilder { striped, ..self }),
    {
        let mut builder = self;
        builder.striped = striped;
        builder
    }

    /// Adds the size hint of the next column.
    pub fn column(self, width: Size) -> (builder: Self)
        ensures
            builder.sizing@ == self.sizing@.push(width),
            builder.ui == self.ui,
            builder.scroll == self.scroll,
            builder.striped == self.striped,
    {
        let mut builder = self;
        builder.sizing.add(width);
        builder
    }

    /// Adds the same size hint for `count` columns.
    pub fn columns(self, size: Size, count: usize) -> (builder: Self)
        ensures
            builder.sizing@ == self.sizing@ + Seq::new(count as nat, |i: int| size),
            builder.ui == self.ui,
            builder.scroll == self.scroll,
            builder.striped == self.striped,
    {
        let mut builder = self;
        let mut done: usize = 0;
        while done < count
            invariant
                0 <= done <= count,
                builder.sizing@ =~= self.sizing@ + Seq::new(done as nat, |i: int| size),
                builder.ui == self.ui,
                builder.scroll == self.scroll,
                builder.striped == self.striped,
            decreases count - done,
        {
            builder.sizing.add(size);
            done = done + 1;
        }
        builder
    }

    /// The width left for the columns.
    pub fn available_width(&self) -> (width: i64)
        ensures
            width as int == self.spec_available_width(),
    {
        let bar: i64 = if self.scroll {
            self.ui.scroll_bar_width
        } else {
            0
        };
        let whole: i64 = self.ui.rect.width();
        saturate_wide(whole as i128 - 2 * (self.ui.item_spacing.x as i128) - bar as i128)
    }

    fn resolve(self) -> (table: Table)
        ensures
            table.widths@.len() == self.sizing@.len(),
            as_lengths(table.widths@) == self.resolved_widths(),
            table.scroll == self.scroll,
            table.striped == self.striped,
    {
        let available = self.available_width();
        let spacing = self.ui.item_spacing.x;
        let scroll = self.scroll;
        let striped = self.striped;
        let ghost hints = self.sizing@;
        let widths = self.sizing.into_lengths(available, spacing);
        proof {
            assert(as_lengths(widths@) =~= resolved_lengths(
                hints,
                available as int,
                spacing as int,
            ));
        }
        Table { widths, scroll, striped }
    }

    /// Resolves the widths and opens the header row, which stays at the top
    /// of the region. The host fills the row, ends it and allocates what its
    /// strip consumed; the table is then ready for its body.
    pub fn header(self, height: i64) -> (opened: (Table, TableRow))
        ensures
            opened.0.widths@.len() == self.sizing@.len(),
            as_lengths(opened.0.widths@) == self.resolved_widths(),
            opened.0.scroll == self.scroll,
            opened.0.striped == self.striped,
            opened.1.is_fresh(
                StripLayout::start(self.ui, CellDirection::Horizontal),
                opened.0.widths@,
                false,
                None,
                height,
            ),
    {
        let layout = StripLayout::new(self.ui, CellDirection::Horizontal);
        let table = self.resolve();
        let row = TableRow {
            layout,
            widths: copy_lengths(&table.widths),
            next: 0,
            striped: false,
            bg_color: None,
            height,
            clicked: false,
        };
        (table, row)
    }

    /// Resolves the widths and opens the body of a table without a header.
    /// `content` is the region inside the scroll area the host wraps the
    /// body in; the viewport is the builder's own region.
    pub fn body(self, content: Region) -> (body: TableBody)
        ensures
            body.widths@.len() == self.sizing@.len(),
            as_lengths(body.widths@) == self.resolved_widths(),
            body.is_open(content, self.ui.rect, self.striped),
    {
        let viewport = self.ui.rect;
        self.resolve().body(viewport, content)
    }
}

impl Table {
    /// Opens the body after the header row. `viewport` is what the host
    /// region has left below the header, `content` the region inside the
    /// scroll area the host wraps the body in. The widths are the ones the
    /// header was laid out with.
    pub fn body(self, viewport: Rect, content: Region) -> (body: TableBody)
        ensures
            body.widths@ == self.widths@,
            body.is_open(content, viewport, self.striped),
    {
        TableBody {
            layout: StripLayout::new(content, CellDirection::Horizontal),
            widths: self.widths,
            striped: self.striped,
            row_nr: 0,
            start_y: viewport.top(),
            end_y: viewport.bottom(),
        }
    }
}

impl TableBody {
    /// A body as it is opened: at the start of `content`, no row yet.
    pub open spec fn is_open(self, content: Region, viewport: Rect, striped: bool) -> bool {
        &&& self.layout == StripLayout::start(content, CellDirection::Horizontal)
        &&& self.striped == striped
        &&& self.row_nr == 0
        &&& self.start_y == viewport.min.y
        &&& self.end_y == viewport.max.y
    }

    /// Whether the row that [`TableBody::row`] opens next gets a stripe.
    pub open spec fn stripes_next(self) -> bool {
        self.striped && self.row_nr % 2 == 0
    }

    /// The window of rows that [`TableBody::rows`] builds.
    pub open spec fn window(self, height: int, rows: int) -> RowWindow {
        window_of(
            saturate(self.layout.cursor.y - self.start_y),
            saturate(self.end_y - self.start_y),
            height,
            rows,
        )
    }

    /// The layout after the filler that stands for the rows skipped above.
    pub open spec fn layout_after_skip(self, height: int, rows: int) -> StripLayout {
        if self.window(height, rows).start > 0 {
            self.layout.filled(self.widths@[0], self.window(height, rows).filler_above)
        } else {
            self.layout
        }
    }

    /// Whether [`TableBody::rows`] needs a filler, above or below.
    pub open spec fn needs_filler(self, height: int, rows: int) -> bool {
        self.window(height, rows).start > 0 || self.window(height, rows).end < rows
    }

    fn skip(&mut self, height: i64)
        requires
            old(self).widths@.len() > 0,
        ensures
            *final(self) == (TableBody {
                layout: old(self).layout.filled(old(self).widths@[0], height),
                ..*old(self)
            }),
    {
        let mut layout = self.layout;
        layout.add(CellSize::Absolute(self.widths[0]), CellSize::Absolute(height), false);
        layout.end_line();
        self.layout = layout;
    }

    /// Opens a row of its own height, with a background where `bg_color`
    /// gives one. Rows are striped by the order they are opened in: the
    /// first, the third, and so on, where the table is striped at all.
    pub fn row(&mut self, height: i64, bg_color: Option<Color>) -> (row: TableRow)
        requires
            old(self).row_nr < usize::MAX,
        ensures
            row.is_fresh(
                old(self).layout,
                old(self).widths@,
                old(self).stripes_next(),
                bg_color,
                height,
            ),
            *final(self) == (TableBody { row_nr: (old(self).row_nr + 1) as usize, ..*old(self) }),
    {
        let row = TableRow {
            layout: self.layout,
            widths: copy_lengths(&self.widths),
            next: 0,
            striped: self.striped && self.row_nr % 2 == 0,
            bg_color,
            height,
            clicked: false,
        };
        self.row_nr = self.row_nr + 1;
        row
    }

    /// Takes a finished row back: the strip goes on at the line after it.
    pub fn end_row(&mut self, row: TableRow)
        ensures
            *final(self) == (TableBody { layout: row.layout.line_ended(), ..*old(self) }),
    {
        self.layout = row.end();
    }

    /// Starts rows of one height, of which only those in view get built.
    ///
    /// The rows skipped above are stood in for at once by one filler line of
    /// their height; what comes back yields the rows in view, in order, and
    /// then closes the body with the filler for the rows below.
    pub fn rows(self, height: i64, rows: usize) -> (pending: VirtualRows)
        requires
            height > 0,
            self.widths@.len() > 0 || !self.needs_filler(height as int, rows as int),
        ensures
            pending.wf(),
            pending.height == height,
            pending.rows == rows,
            pending.next == self.window(height as int, rows as int).start,
            pending.end == self.window(height as int, rows as int).end,
            pending.body == (TableBody {
                layout: self.layout_after_skip(height as int, rows as int),
                ..self
            }),
    {
        let delta = sat_sub(self.layout.current_y(), self.start_y);
        let max_height = sat_sub(self.end_y, self.start_y);
        let window = visible_rows(delta, max_height, height, rows);
        let mut body = self;
        if window.start > 0 {
            body.skip(window.filler_above);
        }
        VirtualRows { body, height, rows, next: window.start, end: window.end }
    }

    /// Closes the body and gives the rectangle its rows consumed, for the
    /// host to allocate so that the scroll area knows the content's size.
    pub fn finish(self) -> (rect: Rect)
        ensures
            rect == self.layout.consumed(),
    {
        self.layout.allocate_rect()
    }
}

impl VirtualRows {
    /// The rows to build end within the rows there are, and a body without
    /// columns has no filler left to place.
    pub open spec fn wf(self) -> bool {
        &&& self.end <= self.rows
        &&& self.height > 0
        &&& (self.body.widths@.len() > 0 || self.end == self.rows)
    }

    /// The layout after the filler that stands for the rows skipped below.
    pub open spec fn layout_after_tail(self) -> StripLayout {
        if self.rows - self.end > 0 {
            self.body.layout.filled(
                self.body.widths@[0],
                saturate((self.rows - self.end) * self.height) as i64,
            )
        } else {
            self.body.layout
        }
    }

    /// Opens the next row in view, with its index, or gives `None` when all
    /// of them are built. A row gets a stripe by its index, not by how many
    /// rows were skipped: the rows 0, 2, 4 and so on, where the table is
    /// striped at all.
    pub fn next_row(&mut self) -> (opened: Option<(usize, TableRow)>)
        ensures
            old(self).next < old(self).end ==> opened.is_some() && opened.unwrap().0 == old(
                self,
            ).next && opened.unwrap().1.is_fresh(
                old(self).body.layout,
                old(self).body.widths@,
                old(self).body.striped && old(self).next % 2 == 0,
                None,
                old(self).height,
            ) && *final(self) == (VirtualRows {
                next: (old(self).next + 1) as usize,
                ..*old(self)
            }),
            old(self).next >= old(self).end ==> opened.is_none() && *final(self) == *old(self),
    {
        if self.next < self.end {
            let index = self.next;
            let row = TableRow {
                layout: self.body.layout,
                widths: copy_lengths(&self.body.widths),
                next: 0,
                striped: self.body.striped && index % 2 == 0,
                bg_color: None,
                height: self.height,
                clicked: false,
            };
            self.next = index + 1;
            Some((index, row))
        } else {
            None
        }
    }

    /// Takes a finished row back: the strip goes on at the line after it.
    pub fn end_row(&mut self, row: TableRow)
        ensures
            *final(self) == (VirtualRows {
                body: TableBody { layout: row.layout.line_ended(), ..old(self).body },
                ..*old(self)
            }),
    {
        self.body.end_row(row);
    }

    /// Places the filler for the rows below the window, closes the body and
    /// gives the rectangle it consumed, for the host to allocate.
    pub fn finish(self) -> (rect: Rect)
        requires
            self.wf(),
        ensures
            rect == self.layout_after_tail().consumed(),
    {
        let mut body = self.body;
        if self.rows - self.end > 0 {
            body.skip(crate::units::sat_scale(self.rows - self.end, self.height));
        }
        body.finish()
    }
}

impl TableRow {
    /// A row as it is opened: no column emitted, nothing clicked.
    pub open spec fn is_fresh(
        self,
        layout: StripLayout,
        widths: Seq<i64>,
        striped: bool,
        bg_color: Option<Color>,
        height: i64,
    ) -> bool {
        &&& self.layout == layout
        &&& self.widths@ == widths
        &&& self.next == 0
        &&& self.striped == striped
        &&& self.bg_color == bg_color
        &&& self.height == height
        &&& !self.clicked
    }

    /// What is painted behind this row's cells.
    pub open spec fn fill(self) -> Fill {
        match self.bg_color {
            Some(color) => Fill::Colored(color),
            None => if self.striped {
                Fill::Striped
            } else {
                Fill::Plain
            },
        }
    }

    /// The extents of the next cell: the next unused width, and the row's height.
    pub open spec fn next_width(self) -> CellSize {
        CellSize::Absolute(self.widths@[self.next as int])
    }

    /// The row after one more column.
    pub open spec fn after_column(self) -> TableRow {
        TableRow {
            layout: self.layout.advanced(self.next_width(), CellSize::Absolute(self.height)),
            next: (self.next + 1) as usize,
            ..self
        }
    }

    /// The row after `count` more columns.
    pub open spec fn after_columns(self, count: nat) -> TableRow
        decreases count,
    {
        if count == 0 {
            self
        } else {
            self.after_columns((count - 1) as nat).after_column()
        }
    }

    /// The cell the next column gets.
    pub open spec fn next_cell(self, clip: bool) -> Cell {
        Cell {
            rect: self.layout.cell_rect(self.next_width(), CellSize::Absolute(self.height)),
            clip,
            fill: self.fill(),
        }
    }

    /// Whether a cell of this row was reported as clicked.
    pub fn clicked(&self) -> (clicked: bool)
        ensures
            clicked == self.clicked,
    {
        self.clicked
    }

    /// Number of columns that can still be emitted.
    pub fn remaining(&self) -> (left: usize)
        ensures
            left as int == if self.next <= self.widths@.len() {
                self.widths@.len() - self.next
            } else {
                0
            },
    {
        let columns: usize = self.widths.len();
        if self.next <= columns {
            columns - self.next
        } else {
            0
        }
    }

    /// Emits the next column, its content wrapped. There must be a column
    /// left: a row cannot hold more cells than the table has columns.
    pub fn col(&mut self) -> (cell: Cell)
        requires
            old(self).next < old(self).widths@.len(),
        ensures
            cell == old(self).next_cell(false),
            *final(self) == old(self).after_column(),
    {
        self.column(false)
    }

    /// Emits the next column, its content clipped to the cell. There must
    /// be a column left.
    pub fn col_clip(&mut self) -> (cell: Cell)
        requires
            old(self).next < old(self).widths@.len(),
        ensures
            cell == old(self).next_cell(true),
            *final(self) == old(self).after_column(),
    {
        self.column(true)
    }

    fn column(&mut self, clip: bool) -> (cell: Cell)
        requires
            old(self).next < old(self).widths@.len(),
        ensures
            cell == old(self).next_cell(clip),
            *final(self) == old(self).after_column(),
    {
        let width = CellSize::Absolute(self.widths[self.next]);
        let height = CellSize::Absolute(self.height);
        let columns: usize = self.widths.len();
        self.next = self.next + 1;
        match self.bg_color {
            None => {
                if self.striped {
                    self.layout.add_striped(width, height, clip)
                } else {
                    self.layout.add(width, height, clip)
                }
            },
            Some(color) => self.layout.add_colored(width, height, clip, color),
        }
    }

    /// Records whether the cell emitted last was clicked: once a cell was
    /// clicked, the row counts as clicked.
    pub fn note_click(&mut self, cell_clicked: bool)
        ensures
            *final(self) == (TableRow {
                clicked: old(self).clicked || cell_clicked,
                ..*old(self)
            }),
    {
        if cell_clicked {
            self.clicked = true;
        }
    }

    /// Records the toolkit's answer for the cell emitted last: the row counts
    /// as clicked once the toolkit says of one of its cells that it was.
    pub fn respond(&mut self, response: &egui::Response)
        ensures
            *final(self) == (TableRow {
                clicked: old(self).clicked || crate::interaction::primary_click(*response),
                ..*old(self)
            }),
    {
        let cell_clicked = response.clicked();
        self.note_click(cell_clicked);
    }

    /// Ends the row and gives the strip back, at the start of the next line.
    pub fn end(self) -> (layout: StripLayout)
        ensures
            layout == self.layout.line_ended(),
    {
        let mut layout = self.layout;
        layout.end_line();
        layout
    }
}

/// The widths a body is opened with after a header are the widths the
/// header was laid out with, and the widths the same builder gives a body
/// without a header.
pub proof fn lemma_widths_carry_over(
    builder: TableBuilder,
    table: Table,
    after_header: TableBody,
    direct: TableBody,
)
    requires
        as_lengths(table.widths@) == builder.resolved_widths(),
        after_header.widths@ == table.widths@,
        as_lengths(direct.widths@) == builder.resolved_widths(),
    ensures
        as_lengths(after_header.widths@) == builder.resolved_widths(),
        after_header.widths@ == direct.widths@,
{
    let left = after_header.widths@;
    let right = direct.widths@;
    assert(left.len() == as_lengths(left).len());
    assert(right.len() == as_lengths(right).len());
    assert forall|i: int| 0 <= i < left.len() implies left[i] == right[i] by {
        assert(as_lengths(left)[i] == left[i] as int);
        assert(as_lengths(right)[i] == right[i] as int);
    }
    assert(left =~= right);
}

/// In a striped table the rows opened one by one alternate: a body opens
/// its first row striped, and of two rows opened one after the other
/// exactly one is striped. Without striping none is.
pub proof fn lemma_stripes_alternate(earlier: TableBody, later: TableBody)
    requires
        later.striped == earlier.striped,
        later.row_nr == earlier.row_nr + 1,
    ensures
        earlier.striped ==> earlier.stripes_next() != later.stripes_next(),
        earlier.striped && earlier.row_nr == 0 ==> earlier.stripes_next(),
        !earlier.striped ==> !earlier.stripes_next() && !later.stripes_next(),
{
}

/// The columns of a freshly opened row make up one line of its strip: the
/// widths in order, each cell as high as the row.
pub proof fn lemma_columns_make_a_line(row: TableRow, count: nat)
    requires
        row.next == 0,
        count <= row.widths@.len(),
        count <= usize::MAX,
    ensures
        row.after_columns(count) == (TableRow {
            layout: row.layout.line_of(row.widths@, count, row.height),
            next: count as usize,
            ..row
        }),
    decreases count,
{
    if count > 0 {
        lemma_columns_make_a_line(row, (count - 1) as nat);
    }
}

/// However far the body is scrolled, short of past its last row, the strip
/// ends up as high as all the rows together: the filler above, the rows in
/// view (each with at least one cell) and the filler below add up to the
/// number of rows times their height, as long as that height and the
/// strip's lower end stay within the coordinate range.
pub proof fn lemma_virtual_rows_keep_height(
    body: TableBody,
    height: i64,
    rows: usize,
    cells: spec_fn(int) -> nat,
)
    requires
        height > 0,
        body.layout.at_line_start(),
        body.widths@.len() > 0,
        body.window(height as int, rows as int).start <= rows,
        forall|i: int|
            body.window(height as int, rows as int).start <= i < body.window(
                height as int,
                rows as int,
            ).end ==> #[trigger] cells(i) >= 1,
        rows * height <= i64::MAX,
        body.layout.cursor.y + rows * height <= i64::MAX,
    ensures
        ({
            let window = body.window(height as int, rows as int);
            let built = body.layout_after_skip(height as int, rows as int).lines_of(
                body.widths@,
                cells,
                height,
                window.start as int,
                window.end as int,
            );
            let pending = VirtualRows {
                body: TableBody { layout: built, ..body },
                height,
                rows,
                next: window.end,
                end: window.end,
            };
            &&& pending.wf()
            &&& pending.layout_after_tail().consumed().min == body.layout.rect.min
            &&& pending.layout_after_tail().consumed().max.y == body.layout.cursor.y + rows
                * height
        }),
{
    let window = body.window(height as int, rows as int);
    let start = window.start as int;
    let end = window.end as int;
    lemma_window_keeps_total_height(
        saturate(body.layout.cursor.y - body.start_y),
        saturate(body.end_y - body.start_y),
        height as int,
        rows as int,
    );
    let skipped = body.layout_after_skip(height as int, rows as int);
    if start > 0 {
        lemma_line_moves_down(body.layout, body.widths@, 1, window.filler_above);
        assert(body.layout.line_of(body.widths@, 0, window.filler_above) == body.layout);
    } else {
        assert(start * height == 0) by (nonlinear_arith)
            requires
                start == 0,
        ;
    }
    lemma_lines_move_down(skipped, body.widths@, cells, height, start, end);
    let built = skipped.lines_of(body.widths@, cells, height, start, end);
    if rows - end > 0 {
        let tail = saturate((rows - end) * height) as i64;
        lemma_line_moves_down(built, body.widths@, 1, tail);
        assert(built.line_of(body.widths@, 0, tail) == built);
    } else {
        assert((rows - end) * height == 0) by (nonlinear_arith)
            requires
                rows - end == 0,
        ;
    }
}

} // verus!
