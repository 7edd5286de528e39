use crate::slice::SliceIndexExt;
use crate::text::diagnostic::range_diagnostic_text;
use crate::text::{byte_len, get_range, get_range_mut, range_is_valid, text_between, text_puts_back};
use std::ops::RangeFrom;
use vstd::prelude::*;
use vstd::utf8::encode_utf8;

verus! {

/// A range without an end stands for the half-open range from its start up
/// to the length of the text in bytes.
impl SliceIndexExt<str> for RangeFrom<usize> {
    type Output = str;

    open spec fn admits(self, container: &str) -> bool {
        range_is_valid(container@, self.start as int, encode_utf8(container@).len() as int)
    }

    open spec fn picks(self, container: &str, part: &str) -> bool {
        part@ == text_between(
            container@,
            self.start as int,
            encode_utf8(container@).len() as int,
        )
    }

    open spec fn puts_back(self, before: &str, after: &str, part: &str) -> bool {
        text_puts_back(
            before@,
            after@,
            part@,
            self.start as int,
            encode_utf8(before@).len() as int,
        )
    }

    open spec fn keeps(self, before: &str, after: &str) -> bool {
        after@ == before@
    }

    open spec fn diagnostic(self, container: &str, note: Option<Seq<char>>) -> Seq<char> {
        range_diagnostic_text(
            container@,
            self.start,
            encode_utf8(container@).len() as usize,
            note,
        )
    }

    fn get_unchecked_dbg<'a>(self, s: &'a str, msg: Option<&'static str>) -> (r: Result<
        &'a str,
        String,
    >) {
        let len: usize = byte_len(s);
        get_range(s, self.start, len, msg)
    }

    fn get_unchecked_mut_dbg<'a>(self, s: &'a mut str, msg: Option<&'static str>) -> (r: Result<
        &'a mut str,
        String,
    >) {
        let len: usize = byte_len(s);
        get_range_mut(s, self.start, len, msg)
    }
}

} // verus!
