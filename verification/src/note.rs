//! The message that a caller may add to a diagnostic.

use vstd::prelude::*;

verus! {

/// The characters of the caller's message, where there is one.
pub open spec fn note_of(msg: Option<&str>) -> Option<Seq<char>> {
    match msg {
        Some(text) => Some(text@),
        None => None,
    }
}

/// What a diagnostic ends with: a colon, a space and the caller's message,
/// or nothing where the caller gave none.
pub open spec fn suffix(note: Option<Seq<char>>) -> Seq<char> {
    match note {
        Some(text) => ": "@ + text,
        None => Seq::empty(),
    }
}

/// Appends to `out` the suffix for the caller's message.
pub fn push_suffix(out: &mut String, msg: Option<&str>)
    ensures
        final(out)@ == old(out)@ + suffix(note_of(msg)),
{
    match msg {
        Some(text) => {
            out.append(": ");
            out.append(text);
            assert(out@ =~= old(out)@ + (": "@ + text@));
        },
        None => {
            assert(out@ =~= old(out)@ + Seq::<char>::empty());
        },
    }
}

} // verus!
