use crate::slice::SliceIndexExt;
use crate::text::diagnostic::range_diagnostic_text;
use crate::text::{get_range, get_range_mut, range_is_valid, text_between, text_puts_back};
use std::ops::RangeTo;
use vstd::prelude::*;

verus! {

/// A range without a start stands for the half-open range from 0 up to its
/// end.
impl SliceIndexExt<str> for RangeTo<usize> {
    type Output = str;

    open spec fn admits(self, container: &str) -> bool {
        range_is_valid(container@, 0, self.end as int)
    }

    open spec fn picks(self, container: &str, part: &str) -> bool {
        part@ == text_between(container@, 0, self.end as int)
    }

    open spec fn puts_back(self, before: &str, after: &str, part: &str) -> bool {
        text_puts_back(before@, after@, part@, 0, self.end as int)
    }

    open spec fn keeps(self, before: &str, after: &str) -> bool {
        after@ == before@
    }

    open spec fn diagnostic(self, container: &str, note: Option<Seq<char>>) -> Seq<char> {
        range_diagnostic_text(container@, 0, self.end, note)
    }

    fn get_unchecked_dbg<'a>(self, s: &'a str, msg: Option<&'static str>) -> (r: Result<
        &'a str,
        String,
    >) {
        get_range(s, 0, self.end, msg)
    }

    fn get_unchecked_mut_dbg<'a>(self, s: &'a mut str, msg: Option<&'static str>) -> (r: Result<
        &'a mut str,
        String,
    >) {
        get_range_mut(s, 0, self.end, msg)
    }
}

} // verus!
