//! Character boundaries in UTF-8 text: where the encoding of a character
//! starts, and what holds of the bytes between two such places.

use crate::text::on_boundary;
use vstd::prelude::*;
use vstd::utf8::*;

verus! {

/// The last character boundary of `bytes` at or before `index`, and the
/// length of `bytes` where `index` is at or past the end.
pub open spec fn floor_boundary(bytes: Seq<u8>, index: int) -> int
    decreases index,
{
    if index <= 0 {
        0
    } else if index >= bytes.len() {
        bytes.len() as int
    } else if is_char_boundary(bytes, index) {
        index
    } else {
        floor_boundary(bytes, index - 1)
    }
}

/// The number of bytes that the UTF-8 encoding of `c` takes.
pub open spec fn utf8_width(c: char) -> int {
    encode_scalar(c as u32).len() as int
}

/// `floor_boundary` is a boundary at or before `index`, and the last one.
pub proof fn lemma_floor_boundary(bytes: Seq<u8>, index: int)
    requires
        valid_utf8(bytes),
        0 <= index,
    ensures
        0 <= floor_boundary(bytes, index) <= index,
        floor_boundary(bytes, index) <= bytes.len(),
        is_char_boundary(bytes, floor_boundary(bytes, index)),
        forall|j: int|
            floor_boundary(bytes, index) < j <= index ==> !is_char_boundary(bytes, j),
    decreases index,
{
    if index <= 0 {
    } else if index >= bytes.len() {
        is_char_boundary_start_end_of_seq(bytes);
    } else if is_char_boundary(bytes, index) {
    } else {
        lemma_floor_boundary(bytes, index - 1);
    }
}

/// After the first character, the boundaries of `bytes` are those of the
/// rest, moved by the width of that character.
proof fn lemma_boundary_after_first(bytes: Seq<u8>, index: int)
    requires
        valid_utf8(bytes),
        0 < index <= bytes.len(),
    ensures
        is_char_boundary(bytes, index) == is_char_boundary(
            pop_first_scalar(bytes),
            index - length_of_first_scalar(bytes),
        ),
        valid_utf8(pop_first_scalar(bytes)),
        1 <= length_of_first_scalar(bytes) <= 4,
        length_of_first_scalar(bytes) <= bytes.len(),
{
}

/// No encoding is longer than four bytes: of any four bytes in a row, one
/// starts a character.
pub proof fn lemma_boundary_within_three(bytes: Seq<u8>, index: int)
    requires
        valid_utf8(bytes),
        0 <= index < bytes.len(),
    ensures
        index - floor_boundary(bytes, index) <= 3,
    decreases bytes.len(),
{
    lemma_floor_boundary(bytes, index);
    let width = length_of_first_scalar(bytes);
    if index < 4 {
    } else {
        lemma_boundary_after_first(bytes, index);
        let rest = pop_first_scalar(bytes);
        lemma_boundary_within_three(rest, index - width);
        let found = floor_boundary(rest, index - width);
        lemma_floor_boundary(rest, index - width);
        lemma_boundary_after_first(bytes, found + width);
        assert(is_char_boundary(bytes, found + width));
    }
}

/// Up to a boundary `end`, the bytes have the boundaries of the whole.
pub proof fn lemma_boundary_of_prefix(bytes: Seq<u8>, index: int, end: int)
    requires
        valid_utf8(bytes),
        is_char_boundary(bytes, end),
        0 <= index <= end,
    ensures
        valid_utf8(bytes.subrange(0, end)),
        is_char_boundary(bytes.subrange(0, end), index) == is_char_boundary(bytes, index),
{
    let head = bytes.subrange(0, end);
    valid_utf8_split(bytes, end);
    if index == end {
        is_char_boundary_start_end_of_seq(head);
    } else if index == 0 {
    } else {
        is_char_boundary_iff_not_is_continuation_byte(bytes, index);
        is_char_boundary_iff_not_is_continuation_byte(head, index);
    }
}

/// From a boundary `start` on, the bytes have the boundaries of the whole,
/// moved by `start`.
pub proof fn lemma_boundary_of_suffix(bytes: Seq<u8>, start: int, index: int)
    requires
        valid_utf8(bytes),
        is_char_boundary(bytes, start),
        start <= index,
    ensures
        valid_utf8(bytes.subrange(start, bytes.len() as int)),
        is_char_boundary(bytes.subrange(start, bytes.len() as int), index - start)
            == is_char_boundary(bytes, index),
{
    let tail = bytes.subrange(start, bytes.len() as int);
    valid_utf8_split(bytes, start);
    if index == start {
    } else if index > bytes.len() {
    } else if index == bytes.len() {
        is_char_boundary_start_end_of_seq(bytes);
        is_char_boundary_start_end_of_seq(tail);
    } else {
        is_char_boundary_iff_not_is_continuation_byte(bytes, index);
        is_char_boundary_iff_not_is_continuation_byte(tail, index - start);
    }
}

/// Whether `b` can start the UTF-8 encoding of a character, that is,
/// whether it is anything but a continuation byte.
pub fn is_utf8_char_boundary(b: u8) -> (r: bool)
    ensures
        r == !is_continuation_byte(b),
{
    b < 128 || b >= 192
}

/// The last character boundary of `s` at or before `index`; the length of
/// `s` where `index` is at or past the end. Within `s` it is `index` or
/// one of the three offsets before it.
pub fn floor_char_boundary(s: &str, index: usize) -> (r: usize)
    ensures
        r == floor_boundary(encode_utf8(s@), index as int),
        r <= index,
        on_boundary(s@, r as int),
        forall|between: int| r < between <= index ==> !on_boundary(s@, between),
        index >= encode_utf8(s@).len() ==> r == encode_utf8(s@).len(),
        index < encode_utf8(s@).len() ==> index - r <= 3,
{
    broadcast use encode_utf8_valid_utf8;

    let bytes = s.as_bytes();
    proof {
        lemma_floor_boundary(bytes@, index as int);
    }
    if index >= bytes.len() {
        bytes.len()
    } else {
        proof {
            lemma_boundary_within_three(bytes@, index as int);
        }
        let mut at: usize = index;
        while !is_utf8_char_boundary(bytes[at])
            invariant
                at <= index < bytes@.len(),
                valid_utf8(bytes@),
                floor_boundary(bytes@, at as int) == floor_boundary(bytes@, index as int),
            decreases at,
        {
            proof {
                is_char_boundary_iff_not_is_continuation_byte(bytes@, at as int);
            }
            at = at - 1;
        }
        proof {
            is_char_boundary_iff_not_is_continuation_byte(bytes@, at as int);
        }
        at
    }
}

/// The number of bytes that the UTF-8 encoding of `c` takes.
pub fn len_utf8(c: char) -> (r: usize)
    ensures
        r == utf8_width(c),
        1 <= r <= 4,
{
    proof {
        char_is_scalar(c);
    }
    let code: u32 = c as u32;
    if code < 0x80 {
        1
    } else if code < 0x800 {
        2
    } else if code < 0x10000 {
        3
    } else {
        4
    }
}

} // verus!
