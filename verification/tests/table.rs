use table_layout::demo::{TableDemo, HEADER_HEIGHT, PLAIN_ROWS, VIRTUAL_ROWS, VIRTUAL_ROW_HEIGHT};
use table_layout::geometry::{Color, Pos, Rect, Region};
use table_layout::layout::{CellDirection, Fill, StripLayout};
use table_layout::sizing::Size;
use table_layout::table::{TableBody, TableBuilder};
use table_layout::units::UNITS_PER_POINT;

fn outer() -> Region {
    Region {
        rect: Rect { min: Pos { x: 0, y: 100 }, max: Pos { x: 514, y: 500 } },
        item_spacing: Pos { x: 3, y: 3 },
        scroll_bar_width: 8,
    }
}

fn scrolled(by: i64) -> Region {
    Region {
        rect: Rect { min: Pos { x: 0, y: 100 - by }, max: Pos { x: 506, y: 500 - by } },
        item_spacing: Pos { x: 3, y: 3 },
        scroll_bar_width: 8,
    }
}

fn three_columns() -> TableBuilder {
    TableBuilder::new(outer())
        .column(Size::Absolute(120))
        .column(Size::RemainderMinimum(180))
        .column(Size::Absolute(100))
}

fn fill_row(body: &mut TableBody, height: i64) {
    let mut row = body.row(height, None);
    while row.remaining() > 0 {
        row.col();
    }
    body.end_row(row);
}

#[test]
fn builder_defaults() {
    let builder = TableBuilder::new(outer());
    assert!(builder.scroll);
    assert!(!builder.striped);
    assert_eq!(builder.sizing.len(), 0);
    assert_eq!(builder.ui, outer());
    let changed = builder.scroll(false).striped(true);
    assert!(!changed.scroll);
    assert!(changed.striped);
}

#[test]
fn columns_adds_the_hint_count_times() {
    let builder = TableBuilder::new(outer()).column(Size::Absolute(40)).columns(Size::Remainder, 3);
    assert_eq!(builder.sizing.len(), 4);
    let body = builder.scroll(false).body(scrolled(0));
    assert_eq!(body.widths, vec![40, 153, 153, 153]);
    let none = TableBuilder::new(outer()).columns(Size::Remainder, 0);
    assert_eq!(none.sizing.len(), 0);
}

#[test]
fn available_width_leaves_room_for_spacing_and_scroll_bar() {
    assert_eq!(three_columns().available_width(), 514 - 6 - 8);
    assert_eq!(three_columns().scroll(false).available_width(), 514 - 6);
}

#[test]
fn header_row_is_laid_out_in_the_outer_region() {
    let (table, mut header) = three_columns().striped(true).header(20);
    assert_eq!(table.widths, vec![120, 274, 100]);
    assert!(table.scroll);
    assert!(table.striped);
    assert!(!header.striped);
    assert_eq!(header.remaining(), 3);
    let left = header.col();
    let middle = header.col();
    let right = header.col_clip();
    assert_eq!(left.rect, Rect { min: Pos { x: 0, y: 100 }, max: Pos { x: 120, y: 120 } });
    assert_eq!(middle.rect, Rect { min: Pos { x: 123, y: 100 }, max: Pos { x: 397, y: 120 } });
    assert_eq!(right.rect, Rect { min: Pos { x: 400, y: 100 }, max: Pos { x: 500, y: 120 } });
    assert_eq!(left.fill, Fill::Plain);
    assert!(!left.clip && !middle.clip && right.clip);
    let allocated = header.end().allocate_rect();
    assert_eq!(allocated, Rect { min: Pos { x: 0, y: 100 }, max: Pos { x: 500, y: 120 } });
}

#[test]
fn header_widths_are_the_body_widths() {
    let (table, header) = three_columns().header(20);
    let header_widths = header.widths.clone();
    let after_header = table.body(outer().rect, scrolled(0));
    let direct = three_columns().body(scrolled(0));
    assert_eq!(header_widths, after_header.widths);
    assert_eq!(after_header.widths, direct.widths);
    let unscrolled = three_columns().scroll(false).body(scrolled(0));
    assert_eq!(unscrolled.widths, vec![120, 282, 100]);
}

#[test]
fn body_opens_at_the_content_start() {
    let body = three_columns().striped(true).body(scrolled(40));
    assert_eq!(body.layout, StripLayout::new(scrolled(40), CellDirection::Horizontal));
    assert_eq!(body.row_nr, 0);
    assert_eq!(body.start_y, 100);
    assert_eq!(body.end_y, 500);
    assert!(body.striped);
    let (table, _header) = three_columns().header(20);
    let viewport = Rect { min: Pos { x: 0, y: 123 }, max: Pos { x: 514, y: 500 } };
    let below_header = table.body(viewport, scrolled(0));
    assert_eq!(below_header.start_y, 123);
    assert_eq!(below_header.end_y, 500);
    assert!(!below_header.striped);
}

#[test]
fn rows_stack_by_their_own_heights() {
    let mut body = three_columns().body(scrolled(0));
    let demo = TableDemo::default();
    let mut expected_y = 100;
    for index in 0..PLAIN_ROWS {
        assert_eq!(body.layout.current_y(), expected_y);
        let height = demo.row_height(index);
        fill_row(&mut body, height);
        expected_y += height;
    }
    assert_eq!(body.row_nr, 100);
    let rect = body.finish();
    assert_eq!(rect.min, Pos { x: 0, y: 100 });
    assert_eq!(rect.max, Pos { x: 500, y: 100 + (13 * 25 + 12 * 30 + 75 * 20) * UNITS_PER_POINT });
}

#[test]
fn every_other_row_is_striped_by_call_order() {
    let mut body = three_columns().striped(true).body(scrolled(0));
    for call in 0..6 {
        let mut row = body.row(20, None);
        assert_eq!(row.striped, call % 2 == 0);
        let cell = row.col();
        assert_eq!(cell.fill, if call % 2 == 0 { Fill::Striped } else { Fill::Plain });
        body.end_row(row);
    }
    let mut plain = three_columns().body(scrolled(0));
    for _ in 0..4 {
        let mut row = plain.row(20, None);
        assert!(!row.striped);
        assert_eq!(row.col().fill, Fill::Plain);
        plain.end_row(row);
    }
}

#[test]
fn chosen_background_wins_over_the_stripe() {
    let blue = Color { r: 0, g: 0, b: 250, a: 255 };
    let mut body = three_columns().striped(true).body(scrolled(0));
    let mut row = body.row(20, Some(blue));
    assert!(row.striped);
    assert_eq!(row.col().fill, Fill::Colored(blue));
    assert_eq!(row.col_clip().fill, Fill::Colored(blue));
    body.end_row(row);
}

#[test]
fn a_row_has_no_column_left_after_the_last() {
    let mut body = three_columns().body(scrolled(0));
    let mut row = body.row(20, None);
    assert_eq!(row.remaining(), 3);
    row.col();
    row.col_clip();
    assert_eq!(row.remaining(), 1);
    row.col();
    assert_eq!(row.remaining(), 0);
    assert_eq!(row.next, row.widths.len());
    body.end_row(row);
}

#[test]
fn a_row_may_stay_short() {
    let mut body = three_columns().body(scrolled(0));
    let mut row = body.row(20, None);
    row.col();
    assert_eq!(row.remaining(), 2);
    body.end_row(row);
    assert_eq!(body.layout.cursor, Pos { x: 0, y: 120 });
    assert_eq!(body.layout.max, Pos { x: 120, y: 120 });
}

#[test]
fn a_row_remembers_a_click() {
    let mut body = three_columns().body(scrolled(0));
    let mut row = body.row(20, None);
    assert!(!row.clicked());
    row.col();
    row.note_click(false);
    assert!(!row.clicked());
    row.col();
    row.note_click(true);
    assert!(row.clicked());
    row.col();
    row.note_click(false);
    assert!(row.clicked());
    body.end_row(row);
}

fn run_virtual(by: i64, rows: usize) -> (Vec<usize>, Vec<i64>, Rect) {
    let body = three_columns().striped(true).body(scrolled(by));
    let mut pending = body.rows(20, rows);
    let mut built = Vec::new();
    let mut tops = Vec::new();
    while let Some((index, mut row)) = pending.next_row() {
        assert_eq!(row.striped, index % 2 == 0);
        assert_eq!(row.height, 20);
        let first = row.col();
        row.col_clip();
        row.col();
        built.push(index);
        tops.push(first.rect.min.y);
        pending.end_row(row);
    }
    (built, tops, pending.finish())
}

#[test]
fn virtual_rows_at_the_top() {
    let (built, tops, rect) = run_virtual(0, 100_000);
    assert_eq!(built, (0..20).collect::<Vec<usize>>());
    assert_eq!(tops[0], 100);
    assert_eq!(tops[19], 100 + 19 * 20);
    assert_eq!(rect.max.y - rect.min.y, 100_000 * 20);
}

#[test]
fn virtual_rows_after_scrolling() {
    let (built, tops, rect) = run_virtual(205, 100_000);
    assert_eq!(built, (10..30).collect::<Vec<usize>>());
    assert_eq!(tops[0], 100 - 205 + 200);
    assert_eq!(rect.min.y, 100 - 205);
    assert_eq!(rect.max.y - rect.min.y, 100_000 * 20);
}

#[test]
fn virtual_rows_keep_the_height_at_any_offset() {
    for by in [0i64, 1, 19, 20, 21, 399, 400, 1_000, 1_999] {
        let (built, _tops, rect) = run_virtual(by, 120);
        assert!(!built.is_empty());
        assert_eq!(rect.max.y - rect.min.y, 120 * 20, "scrolled by {}", by);
    }
}

#[test]
fn virtual_rows_of_an_empty_table() {
    let (built, _tops, rect) = run_virtual(0, 0);
    assert!(built.is_empty());
    assert_eq!(rect.max.y, rect.min.y);
}

#[test]
fn virtual_rows_need_no_column_without_fillers() {
    let body = TableBuilder::new(outer()).body(scrolled(0));
    let mut pending = body.rows(20, 5);
    let mut built = 0;
    while let Some((_index, row)) = pending.next_row() {
        assert_eq!(row.remaining(), 0);
        built += 1;
        pending.end_row(row);
    }
    assert_eq!(built, 5);
    let rect = pending.finish();
    assert_eq!(rect.max.y, rect.min.y);
}

#[test]
fn demo_table() {
    let demo = TableDemo::default();
    assert!(!demo.virtual_scrool);
    assert_eq!(demo.name(), "☰ Table Demo");
    assert_eq!(UNITS_PER_POINT, 64);
    assert_eq!(demo.row_height(0), 25 * 64);
    assert_eq!(demo.row_height(4), 30 * 64);
    assert_eq!(demo.row_height(5), 20 * 64);
    assert_eq!(demo.row_height(8), 25 * 64);
    assert_eq!(demo.row_height(12), 30 * 64);
    assert_eq!(HEADER_HEIGHT, 1_280);
    assert_eq!(VIRTUAL_ROW_HEIGHT, 1_280);
    assert_eq!(VIRTUAL_ROWS, 100_000);
    let ui = Region {
        rect: Rect { min: Pos { x: 0, y: 0 }, max: Pos { x: 514 * 64, y: 400 * 64 } },
        item_spacing: Pos { x: 3 * 64, y: 3 * 64 },
        scroll_bar_width: 8 * 64,
    };
    let builder = demo.table(ui);
    assert!(builder.striped);
    assert!(builder.scroll);
    let (table, _header) = builder.header(HEADER_HEIGHT);
    assert_eq!(table.widths, vec![120 * 64, 274 * 64, 100 * 64]);
}
