use crate::slice::{
    range_failure_message, range_failure_text, range_in_bounds, subslice, subslice_mut,
    SliceIndexExt,
};
use std::ops::Range;
use vstd::prelude::*;

verus! {

/// A half-open range picks out the elements from its start up to its end;
/// it is admitted where it starts no later than it ends and ends within
/// the slice. A range that starts at the length, and ends there, is
/// admitted and picks out nothing.
impl<T> SliceIndexExt<[T]> for Range<usize> {
    type Output = [T];

    open spec fn admits(self, container: &[T]) -> bool {
        range_in_bounds(self.start as int, self.end as int, container@.len() as int)
    }

    open spec fn picks(self, container: &[T], part: &[T]) -> bool {
        part@ == container@.subrange(self.start as int, self.end as int)
    }

    open spec fn puts_back(self, before: &[T], after: &[T], part: &[T]) -> bool {
        after@ == before@.subrange(0, self.start as int) + part@ + before@.subrange(
            self.end as int,
            before@.len() as int,
        )
    }

    open spec fn keeps(self, before: &[T], after: &[T]) -> bool {
        after@ == before@
    }

    open spec fn diagnostic(self, container: &[T], note: Option<Seq<char>>) -> Seq<char> {
        range_failure_text(self.start as nat, self.end as nat, container@.len(), note)
    }

    fn get_unchecked_dbg<'a>(self, slice: &'a [T], msg: Option<&'static str>) -> (r: Result<
        &'a [T],
        String,
    >) {
        if self.start <= self.end && self.end <= slice.len() {
            Ok(subslice(slice, self.start, self.end))
        } else {
            Err(range_failure_message(self, slice.len(), msg))
        }
    }

    fn get_unchecked_mut_dbg<'a>(self, slice: &'a mut [T], msg: Option<&'static str>) -> (r: Result<
        &'a mut [T],
        String,
    >) {
        if self.start <= self.end && self.end <= slice.len() {
            Ok(subslice_mut(slice, self.start, self.end))
        } else {
            Err(range_failure_message(self, slice.len(), msg))
        }
    }
}

} // verus!
