use crate::note::{push_suffix, suffix};
use crate::slice::{
    overflow_text, range_failure_message, range_failure_text, range_in_bounds,
    range_inclusive_into_range, subslice, subslice_mut, SliceIndexExt,
};
use std::ops::RangeInclusive;
use vstd::prelude::*;

verus! {

/// An inclusive range is taken by its two bounds and stands for the
/// half-open range that ends one position later; whether it has been
/// iterated to its end is not looked at. Where it ends at `usize::MAX`
/// there is no such position: that is found before the length is looked
/// at, and reported as an overflow.
impl<T> SliceIndexExt<[T]> for RangeInclusive<usize> {
    type Output = [T];

    open spec fn admits(self, container: &[T]) -> bool {
        self@.end < usize::MAX && range_in_bounds(
            self@.start as int,
            self@.end + 1,
            container@.len() as int,
        )
    }

    open spec fn picks(self, container: &[T], part: &[T]) -> bool {
        part@ == container@.subrange(self@.start as int, self@.end + 1)
    }

    open spec fn puts_back(self, before: &[T], after: &[T], part: &[T]) -> bool {
        after@ == before@.subrange(0, self@.start as int) + part@ + before@.subrange(
            self@.end + 1,
            before@.len() as int,
        )
    }

    open spec fn keeps(self, before: &[T], after: &[T]) -> bool {
        after@ == before@
    }

    open spec fn diagnostic(self, container: &[T], note: Option<Seq<char>>) -> Seq<char> {
        if self@.end == usize::MAX {
            overflow_text() + suffix(note)
        } else {
            range_failure_text(self@.start as nat, (self@.end + 1) as nat, container@.len(), note)
        }
    }

    fn get_unchecked_dbg<'a>(self, slice: &'a [T], msg: Option<&'static str>) -> (r: Result<
        &'a [T],
        String,
    >) {
        match range_inclusive_into_range(self) {
            Err(text) => {
                let mut text = text;
                push_suffix(&mut text, msg);
                Err(text)
            },
            Ok(range) => {
                if range.start <= range.end && range.end <= slice.len() {
                    Ok(subslice(slice, range.start, range.end))
                } else {
                    Err(range_failure_message(range, slice.len(), msg))
                }
            },
        }
    }

    fn get_unchecked_mut_dbg<'a>(self, slice: &'a mut [T], msg: Option<&'static str>) -> (r: Result<
        &'a mut [T],
        String,
    >) {
        match range_inclusive_into_range(self) {
            Err(text) => {
                let mut text = text;
                push_suffix(&mut text, msg);
                Err(text)
            },
            Ok(range) => {
                if range.start <= range.end && range.end <= slice.len() {
                    Ok(subslice_mut(slice, range.start, range.end))
                } else {
                    Err(range_failure_message(range, slice.len(), msg))
                }
            },
        }
    }
}

} // verus!
