use crate::note::{push_suffix, suffix};
use crate::slice::SliceIndexExt;
use crate::text::diagnostic::range_diagnostic_text;
use crate::text::{get_range, get_range_mut, overflow_text, range_inclusive_into_range, range_is_valid, text_between, text_puts_back};
use std::ops::RangeInclusive;
use vstd::prelude::*;

verus! {

/// An inclusive range is taken by its two bounds and stands for the
/// half-open range that ends one byte later; whether it has been iterated
/// to its end is not looked at. Where it ends at `usize::MAX` there is no
/// such offset: that is found before the text is looked at, and reported
/// as an overflow.
impl SliceIndexExt<str> for RangeInclusive<usize> {
    type Output = str;

    open spec fn admits(self, container: &str) -> bool {
        self@.end < usize::MAX && range_is_valid(container@, self@.start as int, self@.end + 1)
    }

    open spec fn picks(self, container: &str, part: &str) -> bool {
        part@ == text_between(container@, self@.start as int, self@.end + 1)
    }

    open spec fn puts_back(self, before: &str, after: &str, part: &str) -> bool {
        text_puts_back(before@, after@, part@, self@.start as int, self@.end + 1)
    }

    open spec fn keeps(self, before: &str, after: &str) -> bool {
        after@ == before@
    }

    open spec fn diagnostic(self, container: &str, note: Option<Seq<char>>) -> Seq<char> {
        if self@.end == usize::MAX {
            overflow_text() + suffix(note)
        } else {
            range_diagnostic_text(container@, self@.start, (self@.end + 1) as usize, note)
        }
    }

    fn get_unchecked_dbg<'a>(self, s: &'a str, msg: Option<&'static str>) -> (r: Result<
        &'a str,
        String,
    >) {
        match range_inclusive_into_range(self) {
            Err(text) => {
                let mut text = text;
                push_suffix(&mut text, msg);
                Err(text)
            },
            Ok(range) => get_range(s, range.start, range.end, msg),
        }
    }

    fn get_unchecked_mut_dbg<'a>(self, s: &'a mut str, msg: Option<&'static str>) -> (r: Result<
        &'a mut str,
        String,
    >) {
        match range_inclusive_into_range(self) {
            Err(text) => {
                let mut text = text;
                push_suffix(&mut text, msg);
                Err(text)
            },
            Ok(range) => get_range_mut(s, range.start, range.end, msg),
        }
    }
}

} // verus!
