//! What this library takes from the standard library without proof: the
//! range types that it accepts as indices, the two ends of an inclusive
//! range, the split of a mutable string slice, and the quoted form of a
//! character.

use std::ops::{RangeFrom, RangeInclusive, RangeTo, RangeToInclusive};
use vstd::prelude::*;
use vstd::utf8::*;

verus! {

/// `std::ops::RangeFrom`, with its one public field `start`.
#[verifier::external_type_specification]
#[verifier::reject_recursive_types(Idx)]
pub struct ExRangeFrom<Idx>(RangeFrom<Idx>);

/// `std::ops::RangeTo`, with its one public field `end`.
#[verifier::external_type_specification]
#[verifier::reject_recursive_types(Idx)]
pub struct ExRangeTo<Idx>(RangeTo<Idx>);

/// `std::ops::RangeToInclusive`, with its one public field `end`.
#[verifier::external_type_specification]
#[verifier::reject_recursive_types(Idx)]
pub struct ExRangeToInclusive<Idx>(RangeToInclusive<Idx>);

/// `RangeInclusive::start` returns the lower bound that the range holds,
/// which its view names `start`.
pub assume_specification<Idx>[ RangeInclusive::<Idx>::start ](range: &RangeInclusive<Idx>) -> (r:
    &Idx)
    ensures
        *r == range@.start,
;

/// `RangeInclusive::end` returns the upper bound that the range holds,
/// which its view names `end`.
pub assume_specification<Idx>[ RangeInclusive::<Idx>::end ](range: &RangeInclusive<Idx>) -> (r:
    &Idx)
    ensures
        *r == range@.end,
;

/// `str::split_at_mut` divides a string slice at the byte offset `mid`,
/// which must be a character boundary (it panics on any other offset): the
/// first part holds the bytes before `mid`, the second those from `mid` on,
/// and when the borrow ends the string is the two parts, one after the
/// other, as they are then.
pub assume_specification[ str::split_at_mut ](s: &mut str, mid: usize) -> (parts: (
    &mut str,
    &mut str,
))
    requires
        is_char_boundary(encode_utf8(old(s)@), mid as int),
    ensures
        encode_utf8(parts.0@) == encode_utf8(old(s)@).subrange(0, mid as int),
        encode_utf8(parts.1@) == encode_utf8(old(s)@).subrange(
            mid as int,
            encode_utf8(old(s)@).len() as int,
        ),
        final(s)@ == final(parts.0)@ + final(parts.1)@,
;

/// What the `Debug` impl of `char` writes for `c`: the character between
/// single quotes, or its escape between them where `Debug` escapes it.
pub uninterp spec fn char_debug_text(c: char) -> Seq<char>;

/// Formats `c` with `{:?}`, that is, with the `Debug` impl of `char`. What
/// that writes depends on `c` alone; it is not stated here, only named.
#[verifier::external_body]
pub(crate) fn char_debug(c: char) -> (r: String)
    ensures
        r@ == char_debug_text(c),
{
    format!("{:?}", c)
}

} // verus!
