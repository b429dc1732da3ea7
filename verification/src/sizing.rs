//! Column size hints and their resolution into concrete lengths.

use vstd::prelude::*;
use crate::units::{
    floor_div_wide,
    lemma_wide_quotient_saturates,
    max_i64,
    max_int,
    sat_sub_wide,
    saturate,
    saturate_wide,
};

verus! {

/// The fraction one, in the parts per million in which relative sizes are given.
pub const FRACTION_ONE: u32 = 1_000_000;

/// Size hint for one table column or strip cell.
#[derive(Clone, Copy, Debug)]
pub enum Size {
    /// A fixed length in layout units.
    Absolute(i64),
    /// A fraction of the whole available length, in parts per million.
    Relative(u32),
    /// A fraction of the whole available length that never goes below `minimum`.
    RelativeMinimum {
        /// Fraction of the available length, in parts per million.
        relative: u32,
        /// Least length in layout units.
        minimum: i64,
    },
    /// An equal share of whatever the other columns leave over.
    Remainder,
    /// An equal share of the leftover that never goes below the given minimum.
    RemainderMinimum(i64),
}

/// `relative` parts per million of `length`, rounded down.
pub open spec fn fraction_of(length: int, relative: int) -> int {
    saturate(length * relative / (FRACTION_ONE as int))
}

impl Size {
    /// Whether this hint takes a share of the leftover.
    pub open spec fn is_remainder(self) -> bool {
        self is Remainder || self is RemainderMinimum
    }

    /// What this hint takes before the leftover is shared out.
    pub open spec fn fixed_length(self, length: int) -> int {
        match self {
            Size::Absolute(a) => a as int,
            Size::Relative(relative) => fraction_of(length, relative as int),
            Size::RelativeMinimum { relative, minimum } => max_int(
                minimum as int,
                fraction_of(length, relative as int),
            ),
            Size::Remainder => 0,
            Size::RemainderMinimum(_) => 0,
        }
    }

    /// The concrete length of this hint once every remainder column gets `share`.
    pub open spec fn resolved(self, length: int, share: int) -> int {
        match self {
            Size::Remainder => share,
            Size::RemainderMinimum(minimum) => max_int(minimum as int, share),
            _ => self.fixed_length(length),
        }
    }

    /// Whether `share` is at least the minimum this hint asks for.
    pub open spec fn content_with(self, share: int) -> bool {
        match self {
            Size::RemainderMinimum(minimum) => minimum as int <= share,
            _ => true,
        }
    }
}

/// Sum of what the non-remainder hints take.
pub open spec fn fixed_total(sizes: Seq<Size>, length: int) -> int
    decreases sizes.len(),
{
    if sizes.len() == 0 {
        0
    } else {
        fixed_total(sizes.drop_last(), length) + sizes.last().fixed_length(length)
    }
}

/// Number of hints that share the leftover.
pub open spec fn remainder_count(sizes: Seq<Size>) -> nat
    decreases sizes.len(),
{
    if sizes.len() == 0 {
        0
    } else {
        remainder_count(sizes.drop_last()) + if sizes.last().is_remainder() {
            1nat
        } else {
            0nat
        }
    }
}

/// Total spacing between `count` cells.
pub open spec fn gaps(count: nat, spacing: int) -> int {
    if count == 0 {
        0
    } else {
        (count - 1) * spacing
    }
}

/// What is left of `length` after the fixed hints and the spacing.
pub open spec fn leftover(sizes: Seq<Size>, length: int, spacing: int) -> int {
    length - fixed_total(sizes, length) - gaps(sizes.len(), spacing)
}

/// The length each remainder column is offered: an even split of the leftover,
/// rounded down. It may be negative; nothing pins it at zero.
pub open spec fn remainder_share(sizes: Seq<Size>, length: int, spacing: int) -> int {
    if remainder_count(sizes) == 0 {
        0
    } else {
        saturate(leftover(sizes, length, spacing) / (remainder_count(sizes) as int))
    }
}

/// The hints resolved one by one against a given remainder share.
pub open spec fn lengths_with_share(sizes: Seq<Size>, length: int, share: int) -> Seq<int> {
    Seq::new(sizes.len(), |i: int| sizes[i].resolved(length, share))
}

/// The concrete lengths of `sizes`, in order, for an available `length` and
/// a `spacing` between neighbours.
pub open spec fn resolved_lengths(sizes: Seq<Size>, length: int, spacing: int) -> Seq<int> {
    lengths_with_share(sizes, length, remainder_share(sizes, length, spacing))
}

/// Sum of a sequence of lengths.
pub open spec fn total_length(lengths: Seq<int>) -> int
    decreases lengths.len(),
{
    if lengths.len() == 0 {
        0
    } else {
        total_length(lengths.drop_last()) + lengths.last()
    }
}

/// An ordered list of size hints, one per column.
pub struct Sizing {
    sizes: Vec<Size>,
}

impl View for Sizing {
    type V = Seq<Size>;

    closed spec fn view(&self) -> Seq<Size> {
        self.sizes@
    }
}

/// `relative` parts per million of `length`, rounded down and saturated.
fn fraction_length(length: i64, relative: u32) -> (r: i64)
    ensures
        r as int == fraction_of(length as int, relative as int),
{
    assert(-0x8000_0000_0000_0000_0000_0000 <= (length as int) * (relative as int)
        <= 0x8000_0000_0000_0000_0000_0000) by (nonlinear_arith)
        requires
            -0x8000_0000_0000_0000 <= length as int <= 0x7fff_ffff_ffff_ffff,
            0 <= relative as int <= 0xffff_ffff,
    ;
    let product: i128 = length as i128 * relative as i128;
    let quotient: i128 = floor_div_wide(product, FRACTION_ONE as i128);
    saturate_wide(quotient)
}

/// What one hint takes before the leftover is shared out.
fn fixed_length_of(size: Size, length: i64) -> (r: i64)
    ensures
        r as int == size.fixed_length(length as int),
{
    match size {
        Size::Absolute(a) => a,
        Size::Relative(relative) => fraction_length(length, relative),
        Size::RelativeMinimum { relative, minimum } => max_i64(
            minimum,
            fraction_length(length, relative),
        ),
        Size::Remainder => 0,
        Size::RemainderMinimum(_) => 0,
    }
}

impl Sizing {
    /// A list without hints.
    pub fn new() -> (sizing: Self)
        ensures
            sizing@ == Seq::<Size>::empty(),
    {
        Sizing { sizes: Vec::new() }
    }

    /// Number of hints in the list.
    pub fn len(&self) -> (n: usize)
        ensures
            n == self@.len(),
    {
        self.sizes.len()
    }

    /// Appends a hint for the next column.
    pub fn add(&mut self, size: Size)
        ensures
            final(self)@ == old(self)@.push(size),
    {
        self.sizes.push(size);
    }

    /// Resolves the hints into concrete lengths for an available `length`,
    /// with `spacing` between neighbouring cells.
    pub fn into_lengths(self, length: i64, spacing: i64) -> (lengths: Vec<i64>)
        ensures
            lengths@.len() == self@.len(),
            forall|i: int|
                0 <= i < lengths@.len() ==> lengths@[i] as int == #[trigger] resolved_lengths(
                    self@,
                    length as int,
                    spacing as int,
                )[i],
    {
        let n: usize = self.sizes.len();
        let mut fixed: i128 = 0;
        let mut remainders: usize = 0;
        let mut i: usize = 0;
        while i < n
            invariant
                n == self.sizes@.len(),
                0 <= i <= n,
                fixed as int == fixed_total(self.sizes@.take(i as int), length as int),
                remainders as int == remainder_count(self.sizes@.take(i as int)),
                remainders <= i,
                -(i as int) * 0x8000_0000_0000_0000 <= fixed as int <= (i as int)
                    * 0x7fff_ffff_ffff_ffff,
            decreases n - i,
        {
            let size: Size = self.sizes[i];
            proof {
                assert(self.sizes@.take(i + 1).drop_last() =~= self.sizes@.take(i as int));
            }
            let term: i64 = fixed_length_of(size, length);
            fixed = fixed + term as i128;
            match size {
                Size::Remainder => {
                    remainders = remainders + 1;
                },
                Size::RemainderMinimum(_) => {
                    remainders = remainders + 1;
                },
                _ => {},
            }
            i = i + 1;
        }
        proof {
            assert(self.sizes@.take(n as int) =~= self.sizes@);
        }
        let share: i64 = if remainders == 0 {
            0
        } else {
            assert(-0x7fff_ffff_ffff_ffff_ffff_ffff_ffff_ffff <= (n - 1) * (spacing as int)
                <= 0x7fff_ffff_ffff_ffff_ffff_ffff_ffff_ffff) by (nonlinear_arith)
                requires
                    -0x8000_0000_0000_0000 <= spacing as int <= 0x7fff_ffff_ffff_ffff,
                    0 <= n - 1 <= 0xffff_ffff_ffff_fffe,
            ;
            let between: i128 = (n - 1) as i128 * spacing as i128;
            let left: i128 = sat_sub_wide(length as i128 - fixed, between);
            proof {
                lemma_wide_quotient_saturates(
                    leftover(self@, length as int, spacing as int),
                    remainders as int,
                );
            }
            saturate_wide(floor_div_wide(left, remainders as i128))
        };
        let mut lengths: Vec<i64> = Vec::new();
        let mut j: usize = 0;
        while j < n
            invariant
                n == self.sizes@.len(),
                0 <= j <= n,
                lengths@.len() == j,
                share as int == remainder_share(self@, length as int, spacing as int),
                forall|k: int|
                    0 <= k < j ==> lengths@[k] as int == #[trigger] self.sizes@[k].resolved(
                        length as int,
                        share as int,
                    ),
            decreases n - j,
        {
            let size: Size = self.sizes[j];
            let resolved: i64 = match size {
                Size::Remainder => share,
                Size::RemainderMinimum(minimum) => max_i64(minimum, share),
                _ => fixed_length_of(size, length),
            };
            lengths.push(resolved);
            j = j + 1;
        }
        lengths
    }
}

/// With at least one remainder column, none of them held up by its minimum,
/// the resolved lengths and the spacing between them use up the available
/// length, short of it by less than one unit per remainder column (what
/// rounding the even split down leaves over).
pub proof fn lemma_lengths_fill_budget(sizes: Seq<Size>, length: int, spacing: int)
    requires
        remainder_count(sizes) > 0,
        forall|i: int|
            0 <= i < sizes.len() ==> (#[trigger] sizes[i]).content_with(
                remainder_share(sizes, length, spacing),
            ),
        i64::MIN <= leftover(sizes, length, spacing) / (remainder_count(sizes) as int) <= i64::MAX,
    ensures
        total_length(resolved_lengths(sizes, length, spacing)) + gaps(sizes.len(), spacing)
            == length - leftover(sizes, length, spacing) % (remainder_count(sizes) as int),
        length - remainder_count(sizes) < total_length(resolved_lengths(sizes, length, spacing))
            + gaps(sizes.len(), spacing) <= length,
{
    let share = remainder_share(sizes, length, spacing);
    let count = remainder_count(sizes) as int;
    let left = leftover(sizes, length, spacing);
    lemma_total_with_share(sizes, length, share);
    assert(left == count * (left / count) + left % count && 0 <= left % count < count)
        by (nonlinear_arith)
        requires
            count > 0,
    ;
}

/// The sum of the lengths resolved against a share that satisfies every
/// minimum: the fixed total plus one share per remainder column.
pub proof fn lemma_total_with_share(sizes: Seq<Size>, length: int, share: int)
    requires
        forall|i: int| 0 <= i < sizes.len() ==> (#[trigger] sizes[i]).content_with(share),
    ensures
        total_length(lengths_with_share(sizes, length, share)) == fixed_total(sizes, length)
            + remainder_count(sizes) * share,
    decreases sizes.len(),
{
    if sizes.len() > 0 {
        let front = sizes.drop_last();
        assert forall|i: int| 0 <= i < front.len() implies (#[trigger] front[i]).content_with(
            share,
        ) by {
            assert(front[i] == sizes[i]);
        }
        lemma_total_with_share(front, length, share);
        assert(lengths_with_share(sizes, length, share).drop_last() =~= lengths_with_share(
            front,
            length,
            share,
        ));
        assert((remainder_count(front) + 1) * share == remainder_count(front) * share + share)
            by (nonlinear_arith);
    } else {
        assert(remainder_count(sizes) * share == 0) by (nonlinear_arith)
            requires
                remainder_count(sizes) == 0,
        ;
    }
}

/// A relative hint resolves to its fraction of the available length, raised
/// to its minimum where it has one, whatever the other hints are.
pub proof fn lemma_relative_length(sizes: Seq<Size>, length: int, spacing: int, i: int)
    requires
        0 <= i < sizes.len(),
    ensures
        sizes[i] matches Size::Relative(relative) ==> resolved_lengths(sizes, length, spacing)[i]
            == fraction_of(length, relative as int),
        sizes[i] matches Size::RelativeMinimum { relative, minimum } ==> resolved_lengths(
            sizes,
            length,
            spacing,
        )[i] == max_int(minimum as int, fraction_of(length, relative as int)),
        sizes[i] matches Size::Absolute(a) ==> resolved_lengths(sizes, length, spacing)[i] == a,
{
}

} // verus!
