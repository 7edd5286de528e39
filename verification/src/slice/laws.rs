//! What holds of every index into every slice: which indices are admitted
//! at the end of a slice, and which offset the diagnostic of a range
//! reports.

use crate::note::suffix;
use crate::slice::{
    end_out_of_range_text, index_failure_text, overflow_text, start_out_of_range_text,
    SliceIndexExt,
};
use std::ops::{Range, RangeFrom, RangeInclusive, RangeTo, RangeToInclusive};
use vstd::prelude::*;

verus! {

/// The range that starts and ends at the length of a slice is admitted and
/// picks out nothing, though the length is no position of the slice: as a
/// position it is reported out of bounds.
pub proof fn lemma_empty_range_at_end<T>(slice: &[T], part: &[T], note: Option<Seq<char>>)
    ensures
        (Range { start: slice@.len() as usize, end: slice@.len() as usize }).admits(slice),
        (Range { start: slice@.len() as usize, end: slice@.len() as usize }).picks(slice, part)
            <==> part@ == Seq::<T>::empty(),
        (RangeFrom { start: slice@.len() as usize }).admits(slice),
        !(slice@.len() as usize).admits(slice),
        (slice@.len() as usize).diagnostic(slice, note) == index_failure_text(
            slice@.len(),
            slice@.len(),
            note,
        ),
{
    broadcast use vstd::slice::group_slice_axioms;

    let len = slice@.len() as int;
    assert(slice.len() == slice@.len());
    assert(slice@.subrange(len, len) =~= Seq::<T>::empty());
}

/// A range that ends past the slice is not admitted, and its diagnostic
/// reports the end, wherever the start lies.
pub proof fn lemma_end_out_of_range<T>(slice: &[T], range: Range<usize>, note: Option<Seq<char>>)
    requires
        range.end > slice@.len(),
    ensures
        !range.admits(slice),
        range.diagnostic(slice, note) == end_out_of_range_text(
            range.end as nat,
            slice@.len(),
            note,
        ),
        !(RangeTo { end: range.end }).admits(slice),
        (RangeTo { end: range.end }).diagnostic(slice, note) == end_out_of_range_text(
            range.end as nat,
            slice@.len(),
            note,
        ),
{
}

/// A range that ends within the slice and starts past it is not admitted,
/// and its diagnostic reports the start.
pub proof fn lemma_start_out_of_range<T>(slice: &[T], range: Range<usize>, note: Option<Seq<char>>)
    requires
        range.end <= slice@.len() < range.start,
    ensures
        !range.admits(slice),
        range.diagnostic(slice, note) == start_out_of_range_text(
            range.start as nat,
            slice@.len(),
            note,
        ),
        !(RangeFrom { start: range.start }).admits(slice),
        (RangeFrom { start: range.start }).diagnostic(slice, note) == start_out_of_range_text(
            range.start as nat,
            slice@.len(),
            note,
        ),
{
}

/// An inclusive range is reported like the half-open range that ends one
/// position later: where that position lies past the slice, the diagnostic
/// reports it, wherever the start lies.
pub proof fn lemma_inclusive_end_out_of_range<T>(
    slice: &[T],
    range: RangeInclusive<usize>,
    note: Option<Seq<char>>,
)
    requires
        slice@.len() <= range@.end < usize::MAX,
    ensures
        !range.admits(slice),
        range.diagnostic(slice, note) == end_out_of_range_text(
            (range@.end + 1) as nat,
            slice@.len(),
            note,
        ),
        !(RangeToInclusive { end: range@.end }).admits(slice),
        (RangeToInclusive { end: range@.end }).diagnostic(slice, note) == end_out_of_range_text(
            (range@.end + 1) as nat,
            slice@.len(),
            note,
        ),
{
}

/// An inclusive range that ends at `usize::MAX` is never admitted, and its
/// diagnostic is that of the overflow, whatever the slice holds and
/// wherever the range starts.
pub proof fn lemma_inclusive_end_at_max<T>(
    slice: &[T],
    range: RangeInclusive<usize>,
    note: Option<Seq<char>>,
)
    requires
        range@.end == usize::MAX,
    ensures
        !range.admits(slice),
        range.diagnostic(slice, note) == overflow_text() + suffix(note),
        !(RangeToInclusive { end: usize::MAX }).admits(slice),
        (RangeToInclusive { end: usize::MAX }).diagnostic(slice, note) == overflow_text() + suffix(
            note,
        ),
{
}

} // verus!
