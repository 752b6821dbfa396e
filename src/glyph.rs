//! Glyph codes of the character grid the game is drawn on.
use vstd::prelude::*;

verus! {

/// The code page 437 glyph that stands for a character.
pub uninterp spec fn cp437_of(c: char) -> u16;

/// Relies on bracket_lib::prelude::to_cp437: the glyph depends on the
/// character alone, and printable ASCII keeps its own code.
#[verifier::external_body]
pub(crate) fn to_cp437(c: char) -> (r: u16)
    ensures
        r == cp437_of(c),
        ' ' <= c <= '~' ==> r == c as u16,
{
    bracket_lib::prelude::to_cp437(c)
}

} // verus!
