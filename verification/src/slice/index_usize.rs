use crate::slice::{index_failure_message, index_failure_text, SliceIndexExt};
use vstd::prelude::*;

verus! {

/// A position picks out the element there; it is admitted where it is less
/// than the length.
impl<T> SliceIndexExt<[T]> for usize {
    type Output = T;

    open spec fn admits(self, container: &[T]) -> bool {
        self < container@.len()
    }

    open spec fn picks(self, container: &[T], part: &T) -> bool {
        *part == container@[self as int]
    }

    open spec fn puts_back(self, before: &[T], after: &[T], part: &T) -> bool {
        after@ == before@.update(self as int, *part)
    }

    open spec fn keeps(self, before: &[T], after: &[T]) -> bool {
        after@ == before@
    }

    open spec fn diagnostic(self, container: &[T], note: Option<Seq<char>>) -> Seq<char> {
        index_failure_text(self as nat, container@.len(), note)
    }

    fn get_unchecked_dbg<'a>(self, slice: &'a [T], msg: Option<&'static str>) -> (r: Result<
        &'a T,
        String,
    >) {
        if self < slice.len() {
            Ok(&slice[self])
        } else {
            Err(index_failure_message(self, slice.len(), msg))
        }
    }

    fn get_unchecked_mut_dbg<'a>(self, slice: &'a mut [T], msg: Option<&'static str>) -> (r: Result<
        &'a mut T,
        String,
    >) {
        if self < slice.len() {
            Ok(&mut slice[self])
        } else {
            Err(index_failure_message(self, slice.len(), msg))
        }
    }
}

} // verus!
