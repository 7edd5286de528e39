//! The text of a diagnostic: how much of the text it shows, and what it
//! says of each failure.

use crate::decimal::{decimal, push_decimal};
use crate::note::{note_of, push_suffix, suffix};
use crate::std_ext::{char_debug, char_debug_text};
use crate::text::boundary::{floor_boundary, floor_char_boundary};
use crate::text::classification::{classify_range, range_failure, FailureClassification};
use crate::text::{byte_len, range_is_valid, str_before, text_between};
use std::ops::Range;
use vstd::prelude::*;
use vstd::utf8::*;

verus! {

/// How many bytes of a text a diagnostic shows at most.
pub const MAX_DISPLAY_LENGTH: usize = 256;

/// How many bytes of `text` a diagnostic shows: all of them, or those
/// before the last character boundary within `MAX_DISPLAY_LENGTH`.
pub open spec fn display_len(text: Seq<char>) -> int {
    floor_boundary(encode_utf8(text), MAX_DISPLAY_LENGTH as int)
}

/// The characters of `text` that a diagnostic shows.
pub open spec fn displayed(text: Seq<char>) -> Seq<char> {
    text_between(text, 0, display_len(text))
}

/// Whether a diagnostic shows less than the whole of `text`.
pub open spec fn is_clipped(text: Seq<char>) -> bool {
    display_len(text) < encode_utf8(text).len()
}

/// A text as a diagnostic quotes it: between single quotes, and followed
/// by the ellipsis marker where it was clipped.
pub open spec fn quoted(shown: Seq<char>, clipped: bool) -> Seq<char> {
    "'"@ + shown + "'"@ + if clipped {
        "[...]"@
    } else {
        Seq::empty()
    }
}

/// The diagnostic for an offset past the end of the text.
pub open spec fn out_of_bounds_text(
    offset: nat,
    shown: Seq<char>,
    clipped: bool,
    note: Option<Seq<char>>,
) -> Seq<char> {
    "byte index "@ + decimal(offset) + " is out of bounds of "@ + quoted(shown, clipped) + suffix(
        note,
    )
}

/// The diagnostic for a range that starts after it ends. It states the
/// relation that was expected of the two offsets, in the order given.
pub open spec fn inverted_range_text(
    start: nat,
    end: nat,
    shown: Seq<char>,
    clipped: bool,
    note: Option<Seq<char>>,
) -> Seq<char> {
    "begin <= end ("@ + decimal(start) + " <= "@ + decimal(end) + ") when slicing "@ + quoted(
        shown,
        clipped,
    ) + suffix(note)
}

/// The diagnostic for an offset inside a character, whose quoted form is
/// `char_text` and whose bytes go from `char_start` up to `char_end`.
pub open spec fn non_boundary_text(
    offset: nat,
    char_text: Seq<char>,
    char_start: nat,
    char_end: nat,
    shown: Seq<char>,
    clipped: bool,
    note: Option<Seq<char>>,
) -> Seq<char> {
    "byte index "@ + decimal(offset) + " is not a char boundary; it is inside "@ + char_text
        + " (bytes "@ + decimal(char_start) + ".."@ + decimal(char_end) + ") of "@ + quoted(
        shown,
        clipped,
    ) + suffix(note)
}

/// The diagnostic for `failure` in `text`, with the caller's message.
pub open spec fn failure_text(
    failure: FailureClassification,
    text: Seq<char>,
    note: Option<Seq<char>>,
) -> Seq<char> {
    match failure {
        FailureClassification::OutOfBounds { offset } => out_of_bounds_text(
            offset as nat,
            displayed(text),
            is_clipped(text),
            note,
        ),
        FailureClassification::InvertedRange { start, end } => inverted_range_text(
            start as nat,
            end as nat,
            displayed(text),
            is_clipped(text),
            note,
        ),
        FailureClassification::NonCharBoundary {
            offset,
            character,
            char_start,
            char_end,
        } => non_boundary_text(
            offset as nat,
            char_debug_text(character),
            char_start as nat,
            char_end as nat,
            displayed(text),
            is_clipped(text),
            note,
        ),
    }
}

/// The diagnostic for the range from `start` up to `end` of `text`, with
/// the caller's message; empty where the range is valid.
pub open spec fn range_diagnostic_text(
    text: Seq<char>,
    start: usize,
    end: usize,
    note: Option<Seq<char>>,
) -> Seq<char> {
    match range_failure(text, start, end) {
        Some(failure) => failure_text(failure, text, note),
        None => Seq::empty(),
    }
}

/// The part of `s` that a diagnostic shows, and whether that is less than
/// the whole.
pub fn displayed_prefix(s: &str) -> (r: (&str, bool))
    ensures
        r.0@ == displayed(s@),
        r.1 == is_clipped(s@),
{
    let shown_len = floor_char_boundary(s, MAX_DISPLAY_LENGTH);
    let shown = str_before(s, shown_len);
    (shown, shown_len < byte_len(s))
}

/// Appends `shown` to `out` as a diagnostic quotes it.
fn push_quoted(out: &mut String, shown: &str, clipped: bool)
    ensures
        final(out)@ == old(out)@ + quoted(shown@, clipped),
{
    out.append("'");
    out.append(shown);
    out.append("'");
    if clipped {
        out.append("[...]");
    }
    assert(out@ =~= old(out)@ + quoted(shown@, clipped));
}

/// Writes the diagnostic for the offset `offset` past the end of a text,
/// of which `shown` is displayed.
pub fn out_of_bounds_message(offset: usize, shown: &str, clipped: bool, msg: Option<&str>) -> (r:
    String)
    ensures
        r@ == out_of_bounds_text(offset as nat, shown@, clipped, note_of(msg)),
{
    let mut out = String::new();
    out.append("byte index ");
    push_decimal(&mut out, offset);
    out.append(" is out of bounds of ");
    push_quoted(&mut out, shown, clipped);
    push_suffix(&mut out, msg);
    assert(out@ =~= out_of_bounds_text(offset as nat, shown@, clipped, note_of(msg)));
    out
}

/// Writes the diagnostic for a range of a text that starts at `start` and
/// ends before it, at `end`.
pub fn inverted_range_message(
    start: usize,
    end: usize,
    shown: &str,
    clipped: bool,
    msg: Option<&str>,
) -> (r: String)
    ensures
        r@ == inverted_range_text(start as nat, end as nat, shown@, clipped, note_of(msg)),
{
    let mut out = String::new();
    out.append("begin <= end (");
    push_decimal(&mut out, start);
    out.append(" <= ");
    push_decimal(&mut out, end);
    out.append(") when slicing ");
    push_quoted(&mut out, shown, clipped);
    push_suffix(&mut out, msg);
    assert(out@ =~= inverted_range_text(
        start as nat,
        end as nat,
        shown@,
        clipped,
        note_of(msg),
    ));
    out
}

/// Writes the diagnostic for the offset `offset` inside a character of a
/// text: `char_text` is the character as it is to be quoted, and its bytes
/// go from `char_start` up to `char_end`.
pub fn non_boundary_message(
    offset: usize,
    char_text: &str,
    char_start: usize,
    char_end: usize,
    shown: &str,
    clipped: bool,
    msg: Option<&str>,
) -> (r: String)
    ensures
        r@ == non_boundary_text(
            offset as nat,
            char_text@,
            char_start as nat,
            char_end as nat,
            shown@,
            clipped,
            note_of(msg),
        ),
{
    let mut out = String::new();
    out.append("byte index ");
    push_decimal(&mut out, offset);
    out.append(" is not a char boundary; it is inside ");
    out.append(char_text);
    out.append(" (bytes ");
    push_decimal(&mut out, char_start);
    out.append("..");
    push_decimal(&mut out, char_end);
    out.append(") of ");
    push_quoted(&mut out, shown, clipped);
    push_suffix(&mut out, msg);
    assert(out@ =~= non_boundary_text(
        offset as nat,
        char_text@,
        char_start as nat,
        char_end as nat,
        shown@,
        clipped,
        note_of(msg),
    ));
    out
}

/// Writes the diagnostic for `failure` in `s`, with the caller's message.
pub fn failure_message(s: &str, failure: FailureClassification, msg: Option<&str>) -> (r: String)
    ensures
        r@ == failure_text(failure, s@, note_of(msg)),
{
    let (shown, clipped) = displayed_prefix(s);
    match failure {
        FailureClassification::OutOfBounds { offset } => out_of_bounds_message(
            offset,
            shown,
            clipped,
            msg,
        ),
        FailureClassification::InvertedRange { start, end } => inverted_range_message(
            start,
            end,
            shown,
            clipped,
            msg,
        ),
        FailureClassification::NonCharBoundary { offset, character, char_start, char_end } => {
            let char_text = char_debug(character);
            non_boundary_message(
                offset,
                char_text.as_str(),
                char_start,
                char_end,
                shown,
                clipped,
                msg,
            )
        },
    }
}

/// The diagnostic for the byte range `range` of `s`, with the caller's
/// message: `None` where the range picks out a run of whole characters.
pub fn range_diagnostic(s: &str, range: Range<usize>, msg: Option<&str>) -> (r: Option<String>)
    ensures
        r is None <==> range_is_valid(s@, range.start as int, range.end as int),
        r matches Some(text) ==> text@ == range_diagnostic_text(
            s@,
            range.start,
            range.end,
            note_of(msg),
        ),
{
    match classify_range(s, range) {
        Some(failure) => Some(failure_message(s, failure, msg)),
        None => None,
    }
}

} // verus!
