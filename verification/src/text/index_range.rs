use crate::slice::SliceIndexExt;
use crate::text::diagnostic::range_diagnostic_text;
use crate::text::{get_range, get_range_mut, range_is_valid, text_between, text_puts_back};
use std::ops::Range;
use vstd::prelude::*;

verus! {

/// A half-open range of byte offsets picks out the characters whose bytes
/// lie from its start up to its end; it is admitted where it starts no
/// later than it ends, ends within the text, and both ends are character
/// boundaries. A range that starts at the length, and ends there, is
/// admitted and picks out nothing.
impl SliceIndexExt<str> for Range<usize> {
    type Output = str;

    open spec fn admits(self, container: &str) -> bool {
        range_is_valid(container@, self.start as int, self.end as int)
    }

    open spec fn picks(self, container: &str, part: &str) -> bool {
        part@ == text_between(container@, self.start as int, self.end as int)
    }

    open spec fn puts_back(self, before: &str, after: &str, part: &str) -> bool {
        text_puts_back(before@, after@, part@, self.start as int, self.end as int)
    }

    open spec fn keeps(self, before: &str, after: &str) -> bool {
        after@ == before@
    }

    open spec fn diagnostic(self, container: &str, note: Option<Seq<char>>) -> Seq<char> {
        range_diagnostic_text(container@, self.start, self.end, note)
    }

    fn get_unchecked_dbg<'a>(self, s: &'a str, msg: Option<&'static str>) -> (r: Result<
        &'a str,
        String,
    >) {
        get_range(s, self.start, self.end, msg)
    }

    fn get_unchecked_mut_dbg<'a>(self, s: &'a mut str, msg: Option<&'static str>) -> (r: Result<
        &'a mut str,
        String,
    >) {
        get_range_mut(s, self.start, self.end, msg)
    }
}

} // verus!
