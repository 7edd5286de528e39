use crate::note::{push_suffix, suffix};
use crate::slice::{
    overflow_text, range_failure_message, range_failure_text, range_in_bounds,
    range_inclusive_into_range, subslice, subslice_mut, SliceIndexExt,
};
use std::ops::{RangeInclusive, RangeToInclusive};
use vstd::prelude::*;

verus! {

/// An inclusive range without a start stands for the inclusive range from
/// 0 to its end, with the same check for an end at `usize::MAX`.
impl<T> SliceIndexExt<[T]> for RangeToInclusive<usize> {
    type Output = [T];

    open spec fn admits(self, container: &[T]) -> bool {
        self.end < usize::MAX && range_in_bounds(0, self.end + 1, container@.len() as int)
    }

    open spec fn picks(self, container: &[T], part: &[T]) -> bool {
        part@ == container@.subrange(0, self.end + 1)
    }

    open spec fn puts_back(self, before: &[T], after: &[T], part: &[T]) -> bool {
        after@ == part@ + before@.subrange(self.end + 1, before@.len() as int)
    }

    open spec fn keeps(self, before: &[T], after: &[T]) -> bool {
        after@ == before@
    }

    open spec fn diagnostic(self, container: &[T], note: Option<Seq<char>>) -> Seq<char> {
        if self.end == usize::MAX {
            overflow_text() + suffix(note)
        } else {
            range_failure_text(0, (self.end + 1) as nat, container@.len(), note)
        }
    }

    fn get_unchecked_dbg<'a>(self, slice: &'a [T], msg: Option<&'static str>) -> (r: Result<
        &'a [T],
        String,
    >) {
        match range_inclusive_into_range(RangeInclusive::new(0, self.end)) {
            Err(text) => {
                let mut text = text;
                push_suffix(&mut text, msg);
                Err(text)
            },
            Ok(range) => {
                if range.end <= slice.len() {
                    Ok(subslice(slice, 0, range.end))
                } else {
                    Err(range_failure_message(range, slice.len(), msg))
                }
            },
        }
    }

    fn get_unchecked_mut_dbg<'a>(self, slice: &'a mut [T], msg: Option<&'static str>) -> (r: Result<
        &'a mut [T],
        String,
    >) {
        match range_inclusive_into_range(RangeInclusive::new(0, self.end)) {
            Err(text) => {
                let mut text = text;
                push_suffix(&mut text, msg);
                Err(text)
            },
            Ok(range) => {
                if range.end <= slice.len() {
                    let part = subslice_mut(slice, 0, range.end);
                    proof {
                        let before = old(slice)@;
                        assert(before.subrange(0, 0) + final(part)@ =~= final(part)@);
                    }
                    Ok(part)
                } else {
                    Err(range_failure_message(range, slice.len(), msg))
                }
            },
        }
    }
}

} // verus!
