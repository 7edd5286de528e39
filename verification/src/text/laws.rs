//! What holds of every byte range of every text: how a valid range divides
//! the text, which failure is reported of an invalid one, and what a
//! diagnostic shows of a long text.

use crate::text::boundary::{
    floor_boundary, lemma_boundary_of_prefix, lemma_boundary_of_suffix, lemma_floor_boundary,
    utf8_width,
};
use crate::note::suffix;
use crate::slice::SliceIndexExt;
use crate::text::classification::{inside_char, range_failure, FailureClassification};
use crate::text::diagnostic::{display_len, displayed, is_clipped, MAX_DISPLAY_LENGTH};
use crate::text::{on_boundary, overflow_text, range_is_valid, text_between, text_puts_back};
use std::ops::{Range, RangeFrom, RangeInclusive, RangeToInclusive};
use vstd::prelude::*;
use vstd::utf8::*;

verus! {

/// The encoding of two texts, one after the other, is the encoding of the
/// first followed by that of the second.
pub proof fn lemma_encode_concat(first: Seq<char>, second: Seq<char>)
    ensures
        encode_utf8(first + second) == encode_utf8(first) + encode_utf8(second),
    decreases first.len(),
{
    if first.len() == 0 {
        assert(first + second =~= second);
        assert(encode_utf8(first) + encode_utf8(second) =~= encode_utf8(second));
    } else {
        lemma_encode_concat(first.drop_first(), second);
        assert((first + second).drop_first() =~= first.drop_first() + second);
        assert(encode_utf8(first + second) =~= encode_utf8(first) + encode_utf8(second));
    }
}

/// A character boundary divides a text into the characters before it and
/// those from it on, and the bytes into the encodings of the two.
pub proof fn lemma_split_at_boundary(text: Seq<char>, at: int)
    requires
        on_boundary(text, at),
    ensures
        text == text_between(text, 0, at) + text_between(text, at, encode_utf8(text).len() as int),
        encode_utf8(text_between(text, 0, at)) == encode_utf8(text).subrange(0, at),
        encode_utf8(text_between(text, at, encode_utf8(text).len() as int)) == encode_utf8(
            text,
        ).subrange(at, encode_utf8(text).len() as int),
{
    let bytes = encode_utf8(text);
    encode_utf8_valid_utf8(text);
    encode_utf8_decode_utf8(text);
    valid_utf8_split(bytes, at);
    decode_utf8_split(bytes, at);
    decode_utf8_encode_utf8(bytes.subrange(0, at));
    decode_utf8_encode_utf8(bytes.subrange(at, bytes.len() as int));
}

/// The start and the end of a text are character boundaries.
pub proof fn lemma_ends_are_boundaries(text: Seq<char>)
    ensures
        on_boundary(text, 0),
        on_boundary(text, encode_utf8(text).len() as int),
{
    encode_utf8_valid_utf8(text);
    is_char_boundary_start_end_of_seq(encode_utf8(text));
}

/// The encoding of the first `count` characters of a text ends at a
/// character boundary.
pub proof fn lemma_prefix_ends_on_boundary(text: Seq<char>, count: int)
    requires
        0 <= count <= text.len(),
    ensures
        on_boundary(text, encode_utf8(text.take(count)).len() as int),
{
    let bytes = encode_utf8(text);
    let first = text.take(count);
    let rest = text.skip(count);
    let at = encode_utf8(first).len() as int;
    assert(text =~= first + rest);
    lemma_encode_concat(first, rest);
    encode_utf8_valid_utf8(text);
    encode_utf8_valid_utf8(rest);
    if rest.len() == 0 {
        assert(encode_utf8(rest) =~= Seq::<u8>::empty());
        is_char_boundary_start_end_of_seq(bytes);
    } else if at == 0 {
    } else {
        encode_utf8_first_scalar(rest);
        assert(bytes[at] == encode_utf8(rest)[0]);
        is_char_boundary_iff_not_is_continuation_byte(bytes, at);
    }
}

/// The character boundaries of a text are the offsets at which the
/// encoding of some number of its first characters ends, and no others.
pub proof fn lemma_boundary_iff_prefix_ends(text: Seq<char>, offset: int)
    ensures
        on_boundary(text, offset) <==> exists|count: int|
            0 <= count <= text.len() && #[trigger] encode_utf8(text.take(count)).len() == offset,
{
    if on_boundary(text, offset) {
        let first = text_between(text, 0, offset);
        lemma_split_at_boundary(text, offset);
        let count = first.len() as int;
        assert(text.take(count) =~= first);
        encode_utf8_valid_utf8(text);
        assert(encode_utf8(text.take(count)).len() == offset);
    }
    if exists|count: int|
        0 <= count <= text.len() && #[trigger] encode_utf8(text.take(count)).len() == offset {
        let count = choose|count: int|
            0 <= count <= text.len() && #[trigger] encode_utf8(text.take(count)).len() == offset;
        lemma_prefix_ends_on_boundary(text, count);
    }
}

/// A valid range divides a text into three runs of whole characters: what
/// is before it, what it picks out, and what is after it.
pub proof fn lemma_valid_range_divides(text: Seq<char>, start: int, end: int)
    requires
        range_is_valid(text, start, end),
    ensures
        text == text_between(text, 0, start) + text_between(text, start, end) + text_between(
            text,
            end,
            encode_utf8(text).len() as int,
        ),
        text_between(text, start, end) == text.subrange(
            text_between(text, 0, start).len() as int,
            text_between(text, 0, end).len() as int,
        ),
        encode_utf8(text_between(text, start, end)) == encode_utf8(text).subrange(start, end),
        encode_utf8(text_between(text, start, end)).len() == end - start,
{
    let bytes = encode_utf8(text);
    let head = text_between(text, 0, end);
    encode_utf8_valid_utf8(text);
    lemma_split_at_boundary(text, end);
    lemma_boundary_of_prefix(bytes, start, end);
    lemma_split_at_boundary(head, start);
    assert(encode_utf8(head).subrange(0, start) =~= bytes.subrange(0, start));
    assert(encode_utf8(head).subrange(start, end) =~= bytes.subrange(start, end));
    let before = text_between(text, 0, start);
    let picked = text_between(text, start, end);
    assert(head =~= before + picked);
    assert(picked =~= text.subrange(before.len() as int, head.len() as int));
}

/// Putting back what a valid range picks out, unchanged, leaves the text
/// as it was.
pub proof fn lemma_put_back_unchanged(text: Seq<char>, start: int, end: int)
    requires
        range_is_valid(text, start, end),
    ensures
        text_puts_back(text, text, text_between(text, start, end), start, end),
{
    lemma_valid_range_divides(text, start, end);
}

/// The range that starts and ends at the length of the text is valid and
/// picks out nothing.
pub proof fn lemma_empty_range_at_end(text: Seq<char>)
    ensures
        range_is_valid(text, encode_utf8(text).len() as int, encode_utf8(text).len() as int),
        text_between(text, encode_utf8(text).len() as int, encode_utf8(text).len() as int)
            == Seq::<char>::empty(),
{
    let bytes = encode_utf8(text);
    encode_utf8_valid_utf8(text);
    is_char_boundary_start_end_of_seq(bytes);
    assert(bytes.subrange(bytes.len() as int, bytes.len() as int) =~= Seq::<u8>::empty());
    assert(decode_utf8(Seq::<u8>::empty()) =~= Seq::<char>::empty());
}

/// Every range is valid or has exactly one failure: a failure is reported
/// of a range if and only if the range is not valid.
pub proof fn lemma_failure_iff_invalid(text: Seq<char>, start: usize, end: usize)
    ensures
        range_failure(text, start, end) is None <==> range_is_valid(text, start as int, end as int),
{
}

/// An end past the text is the offset reported, unless the start is past
/// the text too: then the start is.
pub proof fn lemma_end_out_of_bounds(text: Seq<char>, start: usize, end: usize)
    requires
        end > encode_utf8(text).len(),
        start <= encode_utf8(text).len(),
    ensures
        range_failure(text, start, end) == Some(FailureClassification::OutOfBounds { offset: end }),
{
}

/// A start past the text is the offset reported, wherever the end lies.
pub proof fn lemma_start_out_of_bounds(text: Seq<char>, start: usize, end: usize)
    requires
        start > encode_utf8(text).len(),
    ensures
        range_failure(text, start, end) == Some(
            FailureClassification::OutOfBounds { offset: start },
        ),
{
}

/// A range within the text that starts after it ends is reported as such,
/// with its two offsets as they were given, whatever the boundaries are.
pub proof fn lemma_inverted_range(text: Seq<char>, start: usize, end: usize)
    requires
        end < start <= encode_utf8(text).len(),
    ensures
        range_failure(text, start, end) == Some(
            FailureClassification::InvertedRange { start, end },
        ),
{
}

/// An offset inside a character is reported with that character and the
/// bytes it takes: the character is one of the text and starts at the byte
/// `char_start`, it takes the bytes up to `char_end`, both are character
/// boundaries, and the offset lies between them.
pub proof fn lemma_inside_char(text: Seq<char>, offset: usize)
    requires
        offset <= encode_utf8(text).len() <= usize::MAX,
        !on_boundary(text, offset as int),
    ensures
        inside_char(text, offset) matches FailureClassification::NonCharBoundary {
            offset: reported,
            character,
            char_start,
            char_end,
        } && {
            &&& reported == offset
            &&& char_start < offset < char_end <= encode_utf8(text).len()
            &&& char_end - char_start == utf8_width(character)
            &&& on_boundary(text, char_start as int)
            &&& on_boundary(text, char_end as int)
            &&& exists|k: int|
                0 <= k < text.len() && text[k] == character && #[trigger] encode_utf8(
                    text.take(k),
                ).len() == char_start
        },
{
    let bytes = encode_utf8(text);
    encode_utf8_valid_utf8(text);
    is_char_boundary_start_end_of_seq(bytes);
    lemma_floor_boundary(bytes, offset as int);
    let start = floor_boundary(bytes, offset as int);
    let rest = bytes.subrange(start, bytes.len() as int);
    let tail = text_between(text, start, bytes.len() as int);
    let before = text_between(text, 0, start);
    lemma_split_at_boundary(text, start);
    valid_utf8_split(bytes, start);
    decode_utf8_first_scalar(rest);
    let character = tail[0];
    let width = utf8_width(character);
    assert(width == length_of_first_scalar(rest));
    assert(is_char_boundary(rest, width)) by {
        is_char_boundary_start_end_of_seq(pop_first_scalar(rest));
    }
    lemma_boundary_of_suffix(bytes, start, start + width);
    let k = before.len() as int;
    assert(text.take(k) =~= before);
    assert(text[k] == character);
}

/// The first invalid thing about a range within the text that does not
/// start after it ends is an offset inside a character: the start where it
/// is one, and else the end.
pub proof fn lemma_not_on_boundary(text: Seq<char>, start: usize, end: usize)
    requires
        start <= end <= encode_utf8(text).len(),
        !range_is_valid(text, start as int, end as int),
    ensures
        !on_boundary(text, start as int) ==> range_failure(text, start, end) == Some(
            inside_char(text, start),
        ),
        on_boundary(text, start as int) ==> !on_boundary(text, end as int) && range_failure(
            text,
            start,
            end,
        ) == Some(inside_char(text, end)),
{
}

/// A diagnostic never shows part of a character. What it shows is a run
/// of the first characters of the text whose encoding ends at a character
/// boundary within `MAX_DISPLAY_LENGTH` bytes. It is the longest such
/// run: the whole text where that fits, and else the next character would
/// end past that many bytes.
pub proof fn lemma_displayed_is_longest_prefix(text: Seq<char>)
    ensures
        displayed(text).len() <= text.len(),
        displayed(text) == text.take(displayed(text).len() as int),
        encode_utf8(displayed(text)).len() == display_len(text),
        display_len(text) <= MAX_DISPLAY_LENGTH,
        on_boundary(text, display_len(text)),
        encode_utf8(text).len() <= MAX_DISPLAY_LENGTH ==> displayed(text) == text && !is_clipped(
            text,
        ),
        is_clipped(text) ==> displayed(text).len() < text.len() && encode_utf8(
            text.take(displayed(text).len() as int + 1),
        ).len() > MAX_DISPLAY_LENGTH,
{
    let bytes = encode_utf8(text);
    let limit = MAX_DISPLAY_LENGTH as int;
    let shown_len = display_len(text);
    let shown = displayed(text);
    encode_utf8_valid_utf8(text);
    lemma_floor_boundary(bytes, limit);
    lemma_split_at_boundary(text, shown_len);
    let tail = text_between(text, shown_len, bytes.len() as int);
    assert(text.take(shown.len() as int) =~= shown);
    if bytes.len() <= limit {
        assert(bytes.subrange(0, bytes.len() as int) =~= bytes);
        encode_utf8_decode_utf8(text);
    }
    if is_clipped(text) {
        let rest = bytes.subrange(shown_len, bytes.len() as int);
        valid_utf8_split(bytes, shown_len);
        decode_utf8_first_scalar(rest);
        let width = utf8_width(tail[0]);
        assert(width == length_of_first_scalar(rest));
        assert(is_char_boundary(rest, width)) by {
            is_char_boundary_start_end_of_seq(pop_first_scalar(rest));
        }
        lemma_boundary_of_suffix(bytes, shown_len, shown_len + width);
        let next = text.take(shown.len() as int + 1);
        assert(next =~= shown + seq![tail[0]]);
        lemma_encode_concat(shown, seq![tail[0]]);
        assert(encode_utf8(seq![tail[0]]) =~= encode_scalar(tail[0] as u32)) by {
            reveal_with_fuel(encode_utf8, 2);
            assert(seq![tail[0]].drop_first() =~= Seq::<char>::empty());
        }
    }
}

/// The range that starts and ends at the length of a string slice is
/// admitted and picks out nothing; so is the range without an end that
/// starts there.
pub proof fn lemma_empty_range_at_end_admitted(s: &str, part: &str)
    requires
        encode_utf8(s@).len() <= usize::MAX,
    ensures
        (Range {
            start: encode_utf8(s@).len() as usize,
            end: encode_utf8(s@).len() as usize,
        }).admits(s),
        (Range {
            start: encode_utf8(s@).len() as usize,
            end: encode_utf8(s@).len() as usize,
        }).picks(s, part) <==> part@ == Seq::<char>::empty(),
        (RangeFrom { start: encode_utf8(s@).len() as usize }).admits(s),
        (RangeFrom { start: encode_utf8(s@).len() as usize }).picks(s, part) <==> part@
            == Seq::<char>::empty(),
{
    lemma_empty_range_at_end(s@);
}

/// An inclusive range that ends at `usize::MAX` is never admitted, and its
/// diagnostic is that of the overflow and no other, whatever the text is
/// and wherever the range starts.
pub proof fn lemma_inclusive_end_at_max(
    s: &str,
    range: RangeInclusive<usize>,
    note: Option<Seq<char>>,
)
    requires
        range@.end == usize::MAX,
    ensures
        !range.admits(s),
        range.diagnostic(s, note) == overflow_text() + suffix(note),
        !(RangeToInclusive { end: usize::MAX }).admits(s),
        (RangeToInclusive { end: usize::MAX }).diagnostic(s, note) == overflow_text() + suffix(
            note,
        ),
{
}

} // verus!
