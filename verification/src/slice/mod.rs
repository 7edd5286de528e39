//! Indexing a slice by a position or by a range of positions: the checked
//! lookup, and the diagnostic for an index that is out of range.

pub mod index_range;
pub mod index_range_from;
pub mod index_range_inclusive;
pub mod index_range_to;
pub mod index_range_to_inclusive;
pub mod index_usize;
pub mod laws;

use crate::decimal::{decimal, push_decimal};
use crate::note::{note_of, push_suffix, suffix};
use std::ops::{Range, RangeInclusive};
use vstd::prelude::*;

verus! {

/// An index into a container of type `T`: a position or a range of
/// positions. The lookup is checked. Where it finds nothing, the caller
/// gets the diagnostic that says why, with the caller's own message after
/// it.
pub trait SliceIndexExt<T: ?Sized>: Sized {
    /// What the index picks out of the container.
    type Output: ?Sized;

    /// Whether the index picks anything out of `container`.
    spec fn admits(self, container: &T) -> bool;

    /// Whether `part` is what the index picks out of `container`.
    spec fn picks(self, container: &T, part: &Self::Output) -> bool;

    /// Whether `after` is `before` with `part` in the place of what the
    /// index picks out.
    spec fn puts_back(self, before: &T, after: &T, part: &Self::Output) -> bool;

    /// Whether `after` holds what `before` holds.
    spec fn keeps(self, before: &T, after: &T) -> bool;

    /// The diagnostic for this index where `container` does not admit it,
    /// with the caller's message `note`.
    spec fn diagnostic(self, container: &T, note: Option<Seq<char>>) -> Seq<char>;

    /// Looks the index up in `slice`: the part it picks out, or the
    /// diagnostic for it.
    fn get_unchecked_dbg<'a>(self, slice: &'a T, msg: Option<&'static str>) -> (r: Result<
        &'a Self::Output,
        String,
    >)
        ensures
            match r {
                Ok(part) => self.admits(slice) && self.picks(slice, part),
                Err(text) => !self.admits(slice) && text@ == self.diagnostic(slice, note_of(msg)),
            },
    ;

    /// Looks the index up in `slice` for writing: the part it picks out, or
    /// the diagnostic for it. What is written to the part is written to
    /// `slice`, and nothing else of `slice` changes.
    fn get_unchecked_mut_dbg<'a>(self, slice: &'a mut T, msg: Option<&'static str>) -> (r: Result<
        &'a mut Self::Output,
        String,
    >)
        ensures
            match r {
                Ok(part) => self.admits(old(slice)) && self.picks(old(slice), part)
                    && self.puts_back(old(slice), final(slice), final(part)),
                Err(text) => !self.admits(old(slice)) && text@ == self.diagnostic(
                    old(slice),
                    note_of(msg),
                ) && self.keeps(old(slice), final(slice)),
            },
    ;
}

/// Checked lookups in a slice, by any index that `SliceIndexExt` is
/// implemented for: `usize` and the five range types over `usize`.
pub trait SliceExt<T> {
    /// The slice itself.
    spec fn whole(&self) -> &[T];

    /// Looks `index` up; the diagnostic carries no message of the caller.
    fn get_unchecked_dbg<I>(&self, index: I) -> (r: Result<
        &<I as SliceIndexExt<[T]>>::Output,
        String,
    >)
        where I: SliceIndexExt<[T]>
        ensures
            match r {
                Ok(part) => index.admits(self.whole()) && index.picks(self.whole(), part),
                Err(text) => !index.admits(self.whole()) && text@ == index.diagnostic(
                    self.whole(),
                    None,
                ),
            },
    ;

    /// Looks `index` up for writing; the diagnostic carries no message of
    /// the caller.
    fn get_unchecked_mut_dbg<I>(&mut self, index: I) -> (r: Result<
        &mut <I as SliceIndexExt<[T]>>::Output,
        String,
    >)
        where I: SliceIndexExt<[T]>
        ensures
            match r {
                Ok(part) => index.admits(old(self).whole()) && index.picks(old(self).whole(), part)
                    && index.puts_back(old(self).whole(), final(self).whole(), final(part)),
                Err(text) => !index.admits(old(self).whole()) && text@ == index.diagnostic(
                    old(self).whole(),
                    None,
                ) && index.keeps(old(self).whole(), final(self).whole()),
            },
    ;

    /// Looks `index` up; the diagnostic ends with `msg`.
    fn get_unchecked_dbg_msg<I>(&self, index: I, msg: &'static str) -> (r: Result<
        &<I as SliceIndexExt<[T]>>::Output,
        String,
    >)
        where I: SliceIndexExt<[T]>
        ensures
            match r {
                Ok(part) => index.admits(self.whole()) && index.picks(self.whole(), part),
                Err(text) => !index.admits(self.whole()) && text@ == index.diagnostic(
                    self.whole(),
                    Some(msg@),
                ),
            },
    ;

    /// Looks `index` up for writing; the diagnostic ends with `msg`.
    fn get_unchecked_mut_dbg_msg<I>(&mut self, index: I, msg: &'static str) -> (r: Result<
        &mut <I as SliceIndexExt<[T]>>::Output,
        String,
    >)
        where I: SliceIndexExt<[T]>
        ensures
            match r {
                Ok(part) => index.admits(old(self).whole()) && index.picks(old(self).whole(), part)
                    && index.puts_back(old(self).whole(), final(self).whole(), final(part)),
                Err(text) => !index.admits(old(self).whole()) && text@ == index.diagnostic(
                    old(self).whole(),
                    Some(msg@),
                ) && index.keeps(old(self).whole(), final(self).whole()),
            },
    ;
}

impl<T> SliceExt<T> for [T] {
    open spec fn whole(&self) -> &[T] {
        self
    }

    fn get_unchecked_dbg<I>(&self, index: I) -> (r: Result<
        &<I as SliceIndexExt<[T]>>::Output,
        String,
    >) where I: SliceIndexExt<[T]> {
        index.get_unchecked_dbg(self, None)
    }

    fn get_unchecked_mut_dbg<I>(&mut self, index: I) -> (r: Result<
        &mut <I as SliceIndexExt<[T]>>::Output,
        String,
    >) where I: SliceIndexExt<[T]> {
        index.get_unchecked_mut_dbg(self, None)
    }

    fn get_unchecked_dbg_msg<I>(&self, index: I, msg: &'static str) -> (r: Result<
        &<I as SliceIndexExt<[T]>>::Output,
        String,
    >) where I: SliceIndexExt<[T]> {
        index.get_unchecked_dbg(self, Some(msg))
    }

    fn get_unchecked_mut_dbg_msg<I>(&mut self, index: I, msg: &'static str) -> (r: Result<
        &mut <I as SliceIndexExt<[T]>>::Output,
        String,
    >) where I: SliceIndexExt<[T]> {
        index.get_unchecked_mut_dbg(self, Some(msg))
    }
}

/// The diagnostic for the position `index` in a slice of `len` elements.
pub open spec fn index_failure_text(index: nat, len: nat, note: Option<Seq<char>>) -> Seq<char> {
    "index out of bounds: the len is "@ + decimal(len) + " but the index is "@ + decimal(index)
        + suffix(note)
}

/// The diagnostic for a range whose end `end` lies past a slice of `len`
/// elements.
pub open spec fn end_out_of_range_text(end: nat, len: nat, note: Option<Seq<char>>) -> Seq<char> {
    "range end index "@ + decimal(end) + " out of range for slice of length "@ + decimal(len)
        + suffix(note)
}

/// The diagnostic for a range that is reported by its start `start`, in a
/// slice of `len` elements.
pub open spec fn start_out_of_range_text(start: nat, len: nat, note: Option<Seq<char>>) -> Seq<
    char,
> {
    "range start index "@ + decimal(start) + " out of range for slice of length "@ + decimal(len)
        + suffix(note)
}

/// The diagnostic for the range from `start` up to `end` in a slice of
/// `len` elements. An end past the slice is reported before anything else;
/// every other range is reported by its start.
pub open spec fn range_failure_text(start: nat, end: nat, len: nat, note: Option<Seq<char>>) -> Seq<
    char,
> {
    if end > len {
        end_out_of_range_text(end, len, note)
    } else {
        start_out_of_range_text(start, len, note)
    }
}

/// The diagnostic for an inclusive range that ends at `usize::MAX`, before
/// the caller's message: the position after its end cannot be written.
pub open spec fn overflow_text() -> Seq<char> {
    "attempted to index sequence up to maximum representable index"@
}

/// Whether the range from `start` up to `end` lies in a slice of `len`
/// elements.
pub open spec fn range_in_bounds(start: int, end: int, len: int) -> bool {
    0 <= start <= end <= len
}

/// Writes the diagnostic for the position `index` in a slice of `len`
/// elements.
pub fn index_failure_message(index: usize, len: usize, msg: Option<&str>) -> (r: String)
    ensures
        r@ == index_failure_text(index as nat, len as nat, note_of(msg)),
{
    let mut out = String::new();
    out.append("index out of bounds: the len is ");
    push_decimal(&mut out, len);
    out.append(" but the index is ");
    push_decimal(&mut out, index);
    push_suffix(&mut out, msg);
    assert(out@ =~= index_failure_text(index as nat, len as nat, note_of(msg)));
    out
}

/// Writes the diagnostic for the range `range` in a slice of `len`
/// elements.
pub fn range_failure_message(range: Range<usize>, len: usize, msg: Option<&str>) -> (r: String)
    ensures
        r@ == range_failure_text(range.start as nat, range.end as nat, len as nat, note_of(msg)),
{
    let mut out = String::new();
    if range.end > len {
        out.append("range end index ");
        push_decimal(&mut out, range.end);
    } else {
        out.append("range start index ");
        push_decimal(&mut out, range.start);
    }
    out.append(" out of range for slice of length ");
    push_decimal(&mut out, len);
    push_suffix(&mut out, msg);
    assert(out@ =~= range_failure_text(
        range.start as nat,
        range.end as nat,
        len as nat,
        note_of(msg),
    ));
    out
}

/// Turns an inclusive range into the half-open range of the same
/// positions. A range that ends at `usize::MAX` has none: for it the
/// result is the overflow diagnostic.
pub fn range_inclusive_into_range(range: RangeInclusive<usize>) -> (r: Result<Range<usize>, String>)
    ensures
        match r {
            Ok(half_open) => range@.end < usize::MAX && half_open.start == range@.start
                && half_open.end == range@.end + 1,
            Err(text) => range@.end == usize::MAX && text@ == overflow_text(),
        },
{
    let start: usize = *range.start();
    let end: usize = *range.end();
    if end == usize::MAX {
        Err("attempted to index sequence up to maximum representable index".to_owned())
    } else {
        Ok(start..end + 1)
    }
}

/// The part of `slice` from `start` up to `end`.
pub(crate) fn subslice<T>(slice: &[T], start: usize, end: usize) -> (part: &[T])
    requires
        range_in_bounds(start as int, end as int, slice@.len() as int),
    ensures
        part@ == slice@.subrange(start as int, end as int),
{
    &slice[start..end]
}

/// The part of `slice` from `start` up to `end`, for writing.
pub(crate) fn subslice_mut<T>(slice: &mut [T], start: usize, end: usize) -> (part: &mut [T])
    requires
        range_in_bounds(start as int, end as int, old(slice)@.len() as int),
    ensures
        part@ == old(slice)@.subrange(start as int, end as int),
        final(slice)@ == old(slice)@.subrange(0, start as int) + final(part)@ + old(
            slice,
        )@.subrange(end as int, old(slice)@.len() as int),
{
    let (head, _) = slice.split_at_mut(end);
    let (_, part) = head.split_at_mut(start);
    part
}

} // verus!
