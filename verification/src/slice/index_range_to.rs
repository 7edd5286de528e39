use crate::slice::{
    range_failure_message, range_failure_text, range_in_bounds, subslice, subslice_mut,
    SliceIndexExt,
};
use std::ops::RangeTo;
use vstd::prelude::*;

verus! {

/// A range without a start stands for the half-open range from 0 up to its
/// end: only its end can be out of range.
impl<T> SliceIndexExt<[T]> for RangeTo<usize> {
    type Output = [T];

    open spec fn admits(self, container: &[T]) -> bool {
        range_in_bounds(0, self.end as int, container@.len() as int)
    }

    open spec fn picks(self, container: &[T], part: &[T]) -> bool {
        part@ == container@.subrange(0, self.end as int)
    }

    open spec fn puts_back(self, before: &[T], after: &[T], part: &[T]) -> bool {
        after@ == part@ + before@.subrange(self.end as int, before@.len() as int)
    }

    open spec fn keeps(self, before: &[T], after: &[T]) -> bool {
        after@ == before@
    }

    open spec fn diagnostic(self, container: &[T], note: Option<Seq<char>>) -> Seq<char> {
        range_failure_text(0, self.end as nat, container@.len(), note)
    }

    fn get_unchecked_dbg<'a>(self, slice: &'a [T], msg: Option<&'static str>) -> (r: Result<
        &'a [T],
        String,
    >) {
        if self.end <= slice.len() {
            Ok(subslice(slice, 0, self.end))
        } else {
            Err(range_failure_message(0..self.end, slice.len(), msg))
        }
    }

    fn get_unchecked_mut_dbg<'a>(self, slice: &'a mut [T], msg: Option<&'static str>) -> (r: Result<
        &'a mut [T],
        String,
    >) {
        if self.end <= slice.len() {
            let part = subslice_mut(slice, 0, self.end);
            proof {
                let before = old(slice)@;
                assert(before.subrange(0, 0) + final(part)@ =~= final(part)@);
            }
            Ok(part)
        } else {
            Err(range_failure_message(0..self.end, slice.len(), msg))
        }
    }
}

} // verus!
