use crate::slice::{
    range_failure_message, range_failure_text, range_in_bounds, subslice, subslice_mut,
    SliceIndexExt,
};
use std::ops::RangeFrom;
use vstd::prelude::*;

verus! {

/// A range without an end stands for the half-open range from its start up
/// to the length of the slice: only its start can be out of range.
impl<T> SliceIndexExt<[T]> for RangeFrom<usize> {
    type Output = [T];

    open spec fn admits(self, container: &[T]) -> bool {
        range_in_bounds(self.start as int, container@.len() as int, container@.len() as int)
    }

    open spec fn picks(self, container: &[T], part: &[T]) -> bool {
        part@ == container@.subrange(self.start as int, container@.len() as int)
    }

    open spec fn puts_back(self, before: &[T], after: &[T], part: &[T]) -> bool {
        after@ == before@.subrange(0, self.start as int) + part@
    }

    open spec fn keeps(self, before: &[T], after: &[T]) -> bool {
        after@ == before@
    }

    open spec fn diagnostic(self, container: &[T], note: Option<Seq<char>>) -> Seq<char> {
        range_failure_text(self.start as nat, container@.len(), container@.len(), note)
    }

    fn get_unchecked_dbg<'a>(self, slice: &'a [T], msg: Option<&'static str>) -> (r: Result<
        &'a [T],
        String,
    >) {
        let len: usize = slice.len();
        if self.start <= len {
            Ok(subslice(slice, self.start, len))
        } else {
            Err(range_failure_message(self.start..len, len, msg))
        }
    }

    fn get_unchecked_mut_dbg<'a>(self, slice: &'a mut [T], msg: Option<&'static str>) -> (r: Result<
        &'a mut [T],
        String,
    >) {
        let len: usize = slice.len();
        if self.start <= len {
            let part = subslice_mut(slice, self.start, len);
            proof {
                let before = old(slice)@;
                assert(before.subrange(len as int, len as int) =~= Seq::<T>::empty());
                assert(before.subrange(0, self.start as int) + final(part)@ + Seq::<T>::empty()
                    =~= before.subrange(0, self.start as int) + final(part)@);
            }
            Ok(part)
        } else {
            Err(range_failure_message(self.start..len, len, msg))
        }
    }
}

} // verus!
