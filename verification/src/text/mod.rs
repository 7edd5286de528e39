//! Byte ranges of UTF-8 text: which of them pick out a run of whole
//! characters, the checked lookup of one, and what is reported of one that
//! picks out none.

pub mod boundary;
pub mod classification;
pub mod diagnostic;
pub mod index_range;
pub mod index_range_from;
pub mod index_range_inclusive;
pub mod index_range_to;
pub mod index_range_to_inclusive;
pub mod laws;

use crate::note::note_of;
use crate::slice::SliceIndexExt;
use crate::text::boundary::lemma_boundary_of_prefix;
use crate::text::diagnostic::{range_diagnostic, range_diagnostic_text};
use std::ops::{Range, RangeInclusive};
use vstd::prelude::*;
use vstd::utf8::*;

verus! {

/// The characters that the bytes of `text` from `start` up to `end` encode,
/// where both are character boundaries.
pub open spec fn text_between(text: Seq<char>, start: int, end: int) -> Seq<char> {
    decode_utf8(encode_utf8(text).subrange(start, end))
}

/// Whether the byte offset `offset` is where a character of `text` starts,
/// or the end of `text`.
pub open spec fn on_boundary(text: Seq<char>, offset: int) -> bool {
    is_char_boundary(encode_utf8(text), offset)
}

/// Whether the bytes from `start` up to `end` are a run of whole characters
/// of `text`.
pub open spec fn range_is_valid(text: Seq<char>, start: int, end: int) -> bool {
    &&& 0 <= start <= end <= encode_utf8(text).len()
    &&& on_boundary(text, start)
    &&& on_boundary(text, end)
}

/// The diagnostic for an inclusive range that ends at `usize::MAX`, before
/// the caller's message: the offset after its end cannot be written.
pub open spec fn overflow_text() -> Seq<char> {
    "attempted to index str up to maximum usize"@
}

/// The number of bytes of `s`.
pub fn byte_len(s: &str) -> (r: usize)
    ensures
        r == encode_utf8(s@).len(),
{
    s.as_bytes().len()
}

/// The part of `s` before the byte offset `end`.
pub(crate) fn str_before(s: &str, end: usize) -> (r: &str)
    requires
        on_boundary(s@, end as int),
    ensures
        r@ == text_between(s@, 0, end as int),
        encode_utf8(r@) == encode_utf8(s@).subrange(0, end as int),
{
    broadcast use encode_utf8_decode_utf8;

    let (head, _) = s.split_at(end);
    head
}

/// The part of `s` from the byte offset `start` on.
pub(crate) fn str_from(s: &str, start: usize) -> (r: &str)
    requires
        on_boundary(s@, start as int),
    ensures
        r@ == text_between(s@, start as int, encode_utf8(s@).len() as int),
        encode_utf8(r@) == encode_utf8(s@).subrange(start as int, encode_utf8(s@).len() as int),
{
    broadcast use encode_utf8_decode_utf8;

    let (_, tail) = s.split_at(start);
    tail
}

/// Turns an inclusive range into the half-open range of the same offsets.
/// A range that ends at `usize::MAX` has none: for it the result is the
/// overflow diagnostic.
pub fn range_inclusive_into_range(range: RangeInclusive<usize>) -> (r: Result<Range<usize>, String>)
    ensures
        match r {
            Ok(half_open) => range@.end < usize::MAX && half_open.start == range@.start
                && half_open.end == range@.end + 1,
            Err(text) => range@.end == usize::MAX && text@ == overflow_text(),
        },
{
    let start: usize = *range.start();
    let end: usize = *range.end();
    if end == usize::MAX {
        Err("attempted to index str up to maximum usize".to_owned())
    } else {
        Ok(start..end + 1)
    }
}

/// The part of `s` from the byte offset `start` up to `end`.
pub(crate) fn substr(s: &str, start: usize, end: usize) -> (part: &str)
    requires
        range_is_valid(s@, start as int, end as int),
    ensures
        part@ == text_between(s@, start as int, end as int),
{
    broadcast use encode_utf8_valid_utf8;

    let head = str_before(s, end);
    proof {
        lemma_boundary_of_prefix(encode_utf8(s@), start as int, end as int);
        assert(encode_utf8(head@).subrange(start as int, end as int) =~= encode_utf8(s@).subrange(
            start as int,
            end as int,
        ));
    }
    str_from(head, start)
}

/// The part of `s` from the byte offset `start` up to `end`, for writing.
pub(crate) fn substr_mut(s: &mut str, start: usize, end: usize) -> (part: &mut str)
    requires
        range_is_valid(old(s)@, start as int, end as int),
    ensures
        part@ == text_between(old(s)@, start as int, end as int),
        final(s)@ == text_between(old(s)@, 0, start as int) + final(part)@ + text_between(
            old(s)@,
            end as int,
            encode_utf8(old(s)@).len() as int,
        ),
{
    broadcast use {encode_utf8_valid_utf8, encode_utf8_decode_utf8};

    let ghost bytes = encode_utf8(s@);
    let (head, _) = s.split_at_mut(end);
    let ghost head_bytes = encode_utf8(head@);
    proof {
        lemma_boundary_of_prefix(bytes, start as int, end as int);
    }
    let (_, part) = head.split_at_mut(start);
    proof {
        assert(head_bytes.subrange(start as int, end as int) =~= bytes.subrange(
            start as int,
            end as int,
        ));
        assert(head_bytes.subrange(0, start as int) =~= bytes.subrange(0, start as int));
    }
    part
}

/// What is left of `before` and what is written: `after` is `before` with
/// `part` in the place of the bytes from `start` up to `end`.
pub open spec fn text_puts_back(
    before: Seq<char>,
    after: Seq<char>,
    part: Seq<char>,
    start: int,
    end: int,
) -> bool {
    after == text_between(before, 0, start) + part + text_between(
        before,
        end,
        encode_utf8(before).len() as int,
    )
}

/// Looks the byte range from `start` up to `end` up in `s`: the part it
/// picks out, or the diagnostic for it.
pub fn get_range<'a>(s: &'a str, start: usize, end: usize, msg: Option<&str>) -> (r: Result<
    &'a str,
    String,
>)
    ensures
        match r {
            Ok(part) => range_is_valid(s@, start as int, end as int) && part@ == text_between(
                s@,
                start as int,
                end as int,
            ),
            Err(text) => !range_is_valid(s@, start as int, end as int) && text@
                == range_diagnostic_text(s@, start, end, note_of(msg)),
        },
{
    match range_diagnostic(s, start..end, msg) {
        Some(text) => Err(text),
        None => Ok(substr(s, start, end)),
    }
}

/// Looks the byte range from `start` up to `end` up in `s` for writing: the
/// part it picks out, or the diagnostic for it.
pub fn get_range_mut<'a>(s: &'a mut str, start: usize, end: usize, msg: Option<&str>) -> (r: Result<
    &'a mut str,
    String,
>)
    ensures
        match r {
            Ok(part) => range_is_valid(old(s)@, start as int, end as int) && part@ == text_between(
                old(s)@,
                start as int,
                end as int,
            ) && text_puts_back(old(s)@, final(s)@, final(part)@, start as int, end as int),
            Err(text) => !range_is_valid(old(s)@, start as int, end as int) && text@
                == range_diagnostic_text(old(s)@, start, end, note_of(msg)) && final(s)@ == old(
                s,
            )@,
        },
{
    match range_diagnostic(s, start..end, msg) {
        Some(text) => Err(text),
        None => Ok(substr_mut(s, start, end)),
    }
}

/// Checked lookups in a string slice by a range of byte offsets: any of the
/// five range types over `usize`, for which `SliceIndexExt<str>` is
/// implemented.
pub trait StrExt {
    /// The string slice itself.
    spec fn whole(&self) -> &str;

    /// Looks `index` up; the diagnostic carries no message of the caller.
    fn get_unchecked_dbg<I>(&self, index: I) -> (r: Result<
        &<I as SliceIndexExt<str>>::Output,
        String,
    >)
        where I: SliceIndexExt<str>
        ensures
            match r {
                Ok(part) => index.admits(self.whole()) && index.picks(self.whole(), part),
                Err(text) => !index.admits(self.whole()) && text@ == index.diagnostic(
                    self.whole(),
                    None,
                ),
            },
    ;

    /// Looks `index` up for writing; the diagnostic carries no message of
    /// the caller.
    fn get_unchecked_mut_dbg<I>(&mut self, index: I) -> (r: Result<
        &mut <I as SliceIndexExt<str>>::Output,
        String,
    >)
        where I: SliceIndexExt<str>
        ensures
            match r {
                Ok(part) => index.admits(old(self).whole()) && index.picks(old(self).whole(), part)
                    && index.puts_back(old(self).whole(), final(self).whole(), final(part)),
                Err(text) => !index.admits(old(self).whole()) && text@ == index.diagnostic(
                    old(self).whole(),
                    None,
                ) && index.keeps(old(self).whole(), final(self).whole()),
            },
    ;

    /// Looks `index` up; the diagnostic ends with `msg`.
    fn get_unchecked_dbg_msg<I>(&self, index: I, msg: &'static str) -> (r: Result<
        &<I as SliceIndexExt<str>>::Output,
        String,
    >)
        where I: SliceIndexExt<str>
        ensures
            match r {
                Ok(part) => index.admits(self.whole()) && index.picks(self.whole(), part),
                Err(text) => !index.admits(self.whole()) && text@ == index.diagnostic(
                    self.whole(),
                    Some(msg@),
                ),
            },
    ;

    /// Looks `index` up for writing; the diagnostic ends with `msg`.
    fn get_unchecked_mut_dbg_msg<I>(&mut self, index: I, msg: &'static str) -> (r: Result<
        &mut <I as SliceIndexExt<str>>::Output,
        String,
    >)
        where I: SliceIndexExt<str>
        ensures
            match r {
                Ok(part) => index.admits(old(self).whole()) && index.picks(old(self).whole(), part)
                    && index.puts_back(old(self).whole(), final(self).whole(), final(part)),
                Err(text) => !index.admits(old(self).whole()) && text@ == index.diagnostic(
                    old(self).whole(),
                    Some(msg@),
                ) && index.keeps(old(self).whole(), final(self).whole()),
            },
    ;
}

impl StrExt for str {
    open spec fn whole(&self) -> &str {
        self
    }

    fn get_unchecked_dbg<I>(&self, index: I) -> (r: Result<
        &<I as SliceIndexExt<str>>::Output,
        String,
    >) where I: SliceIndexExt<str> {
        index.get_unchecked_dbg(self, None)
    }

    fn get_unchecked_mut_dbg<I>(&mut self, index: I) -> (r: Result<
        &mut <I as SliceIndexExt<str>>::Output,
        String,
    >) where I: SliceIndexExt<str> {
        index.get_unchecked_mut_dbg(self, None)
    }

    fn get_unchecked_dbg_msg<I>(&self, index: I, msg: &'static str) -> (r: Result<
        &<I as SliceIndexExt<str>>::Output,
        String,
    >) where I: SliceIndexExt<str> {
        index.get_unchecked_dbg(self, Some(msg))
    }

    fn get_unchecked_mut_dbg_msg<I>(&mut self, index: I, msg: &'static str) -> (r: Result<
        &mut <I as SliceIndexExt<str>>::Output,
        String,
    >) where I: SliceIndexExt<str> {
        index.get_unchecked_mut_dbg(self, Some(msg))
    }
}

} // verus!
