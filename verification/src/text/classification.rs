//! The one failure that is reported of a byte range that does not pick out
//! a run of whole characters.

use crate::text::boundary::{floor_boundary, floor_char_boundary, len_utf8, utf8_width};
use crate::text::{byte_len, on_boundary, range_is_valid, str_from, text_between};
use std::ops::Range;
use vstd::prelude::*;
use vstd::utf8::*;

verus! {

/// Why a byte range does not pick out a run of whole characters of a text.
#[derive(Clone, Copy, Debug, PartialEq, Eq)]
pub enum FailureClassification {
    /// `offset`, an end of the range, lies past the end of the text.
    OutOfBounds { offset: usize },
    /// The range starts after it ends.
    InvertedRange { start: usize, end: usize },
    /// `offset`, an end of the range, lies inside the encoding of
    /// `character`, which takes the bytes from `char_start` up to `char_end`.
    NonCharBoundary { offset: usize, character: char, char_start: usize, char_end: usize },
}

/// The failure of an end of a range that lies inside a character: the
/// character is the one that starts at the last boundary before `offset`.
pub open spec fn inside_char(text: Seq<char>, offset: usize) -> FailureClassification {
    let bytes = encode_utf8(text);
    let char_start = floor_boundary(bytes, offset as int);
    let character = text_between(text, char_start, bytes.len() as int)[0];
    FailureClassification::NonCharBoundary {
        offset,
        character,
        char_start: char_start as usize,
        char_end: (char_start + utf8_width(character)) as usize,
    }
}

/// What is wrong with the range from `start` up to `end` in `text`, and
/// `None` where nothing is. An offset past the end is reported first, the
/// start before the end; then a range that starts after it ends; then an
/// offset inside a character, again the start before the end.
pub open spec fn range_failure(text: Seq<char>, start: usize, end: usize) -> Option<
    FailureClassification,
> {
    let bytes = encode_utf8(text);
    if start > bytes.len() {
        Some(FailureClassification::OutOfBounds { offset: start })
    } else if end > bytes.len() {
        Some(FailureClassification::OutOfBounds { offset: end })
    } else if start > end {
        Some(FailureClassification::InvertedRange { start, end })
    } else if !on_boundary(text, start as int) {
        Some(inside_char(text, start))
    } else if !on_boundary(text, end as int) {
        Some(inside_char(text, end))
    } else {
        None
    }
}

/// The character of `s` whose encoding starts at the byte offset `start`.
fn char_at(s: &str, start: usize) -> (r: char)
    requires
        start < encode_utf8(s@).len(),
        on_boundary(s@, start as int),
    ensures
        r == text_between(s@, start as int, encode_utf8(s@).len() as int)[0],
        start + utf8_width(r) <= encode_utf8(s@).len(),
{
    broadcast use encode_utf8_valid_utf8;

    let tail = str_from(s, start);
    proof {
        let rest = encode_utf8(s@).subrange(start as int, encode_utf8(s@).len() as int);
        valid_utf8_split(encode_utf8(s@), start as int);
        decode_utf8_first_scalar(rest);
        assert(tail@.len() > 0);
    }
    tail.get_char(0)
}

/// Finds the character of `s` inside which the byte offset `offset` lies:
/// `None` where it lies inside none, at a character boundary or past the
/// end.
pub fn locate_char(s: &str, offset: usize) -> (r: Option<FailureClassification>)
    ensures
        r == if offset < encode_utf8(s@).len() && !on_boundary(s@, offset as int) {
            Some(inside_char(s@, offset))
        } else {
            None
        },
{
    if offset >= byte_len(s) || s.is_char_boundary(offset) {
        None
    } else {
        let char_start = floor_char_boundary(s, offset);
        let character = char_at(s, char_start);
        let char_end = char_start + len_utf8(character);
        Some(FailureClassification::NonCharBoundary { offset, character, char_start, char_end })
    }
}

/// Classifies the byte range `range` of `s`: `None` where it picks out a
/// run of whole characters, and else the one failure that is reported.
pub fn classify_range(s: &str, range: Range<usize>) -> (r: Option<FailureClassification>)
    ensures
        r == range_failure(s@, range.start, range.end),
        r is None <==> range_is_valid(s@, range.start as int, range.end as int),
{
    broadcast use encode_utf8_valid_utf8;

    proof {
        is_char_boundary_start_end_of_seq(encode_utf8(s@));
    }
    let start: usize = range.start;
    let end: usize = range.end;
    let len: usize = byte_len(s);
    if start > len {
        Some(FailureClassification::OutOfBounds { offset: start })
    } else if end > len {
        Some(FailureClassification::OutOfBounds { offset: end })
    } else if start > end {
        Some(FailureClassification::InvertedRange { start, end })
    } else {
        match locate_char(s, start) {
            Some(failure) => Some(failure),
            None => locate_char(s, end),
        }
    }
}

} // verus!
