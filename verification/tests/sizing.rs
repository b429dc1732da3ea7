use table_layout::sizing::{Size, Sizing, FRACTION_ONE};

fn resolve(sizes: &[Size], length: i64, spacing: i64) -> Vec<i64> {
    let mut sizing = Sizing::new();
    for size in sizes {
        sizing.add(*size);
    }
    assert_eq!(sizing.len(), sizes.len());
    sizing.into_lengths(length, spacing)
}

fn used(lengths: &[i64], spacing: i64) -> i64 {
    lengths.iter().sum::<i64>() + (lengths.len() as i64 - 1) * spacing
}

#[test]
fn remainder_takes_what_is_left() {
    let lengths = resolve(
        &[Size::Absolute(120), Size::RemainderMinimum(180), Size::Absolute(100)],
        500,
        3,
    );
    assert_eq!(lengths, vec![120, 274, 100]);
    assert_eq!(used(&lengths, 3), 500);
}

#[test]
fn lengths_fill_the_budget_up_to_rounding() {
    let sizes = [
        Size::Remainder,
        Size::Absolute(31),
        Size::Relative(250_000),
        Size::Remainder,
        Size::RemainderMinimum(10),
    ];
    for length in [400i64, 401, 402, 403, 1_000, 999] {
        let lengths = resolve(&sizes, length, 4);
        let total = used(&lengths, 4);
        assert!(total <= length && total > length - 3, "{} of {}", total, length);
        assert_eq!(lengths[0], lengths[3]);
        assert_eq!(lengths[0], lengths[4]);
    }
    assert_eq!(resolve(&sizes, 400, 4), vec![84, 31, 100, 84, 84]);
}

#[test]
fn minimum_holds_a_remainder_up() {
    let lengths = resolve(
        &[Size::Absolute(120), Size::RemainderMinimum(180), Size::Absolute(100)],
        300,
        3,
    );
    assert_eq!(lengths, vec![120, 180, 100]);
    assert!(used(&lengths, 3) > 300);
}

#[test]
fn relative_is_a_fraction_of_the_whole() {
    let lengths = resolve(
        &[Size::Absolute(50), Size::Relative(300_000), Size::Remainder],
        1_000,
        0,
    );
    assert_eq!(lengths, vec![50, 300, 650]);
    let alone = resolve(&[Size::Relative(300_000)], 1_001, 5);
    assert_eq!(alone, vec![300]);
    let whole = resolve(&[Size::Relative(FRACTION_ONE)], 777, 5);
    assert_eq!(whole, vec![777]);
}

#[test]
fn relative_minimum_is_the_larger_of_the_two() {
    let held = resolve(
        &[Size::RelativeMinimum { relative: 300_000, minimum: 400 }, Size::Remainder],
        1_000,
        0,
    );
    assert_eq!(held, vec![400, 600]);
    let free = resolve(
        &[Size::RelativeMinimum { relative: 300_000, minimum: 100 }, Size::Remainder],
        1_000,
        0,
    );
    assert_eq!(free, vec![300, 700]);
}

#[test]
fn remainders_split_evenly_rounding_down() {
    assert_eq!(resolve(&[Size::Remainder, Size::Remainder], 101, 0), vec![50, 50]);
    assert_eq!(resolve(&[Size::Remainder, Size::Remainder], 101, 1), vec![50, 50]);
    assert_eq!(resolve(&[Size::Remainder, Size::Remainder], 102, 2), vec![50, 50]);
}

#[test]
fn negative_leftover_is_not_pinned_at_zero() {
    assert_eq!(resolve(&[Size::Absolute(200), Size::Remainder], 100, 0), vec![200, -100]);
    assert_eq!(
        resolve(&[Size::Absolute(0), Size::Remainder, Size::Remainder], -3, 0),
        vec![0, -2, -2]
    );
}

#[test]
fn no_remainder_leaves_width_unused() {
    let lengths = resolve(&[Size::Absolute(10), Size::Absolute(20)], 100, 5);
    assert_eq!(lengths, vec![10, 20]);
}

#[test]
fn no_hints_no_lengths() {
    assert_eq!(resolve(&[], 100, 5), Vec::<i64>::new());
}

#[test]
fn single_remainder_takes_everything() {
    assert_eq!(resolve(&[Size::Remainder], 640, 8), vec![640]);
    assert_eq!(resolve(&[Size::RemainderMinimum(700)], 640, 8), vec![700]);
}

#[test]
fn extreme_lengths_saturate() {
    let lengths = resolve(&[Size::Relative(u32::MAX), Size::Remainder], i64::MAX, 0);
    assert_eq!(lengths[0], i64::MAX);
    assert_eq!(lengths[1], 0);
    let low = resolve(&[Size::Absolute(i64::MAX), Size::Absolute(i64::MAX), Size::Remainder], i64::MIN, 0);
    assert_eq!(low[2], i64::MIN);
}
