//! Scripts, and how the script of a text is found among the scripts of its
//! characters.

use crate::tag::Tag;
use vstd::prelude::*;

verus! {

/// The script of characters that belong to every script: the tag `Zyyy`.
pub const SCRIPT_COMMON: u32 = 0x5A79_7979;

/// The script of characters that take the script of their neighbour: the
/// tag `Zinh`.
pub const SCRIPT_INHERITED: u32 = 0x5A69_6E68;

/// The script of characters whose script is not known: the tag `Zzzz`.
pub const SCRIPT_UNKNOWN: u32 = 0x5A7A_7A7A;

/// Whether a script says nothing about the script of a text.
pub open spec fn is_neutral(script: Tag) -> bool {
    script.0 == SCRIPT_COMMON || script.0 == SCRIPT_INHERITED || script.0 == SCRIPT_UNKNOWN
}

/// The first script in the list that is not neutral; the unset tag where
/// there is none.
pub open spec fn first_script(scripts: Seq<Tag>) -> Tag
    decreases scripts.len(),
{
    if scripts.len() == 0 {
        Tag(0)
    } else if !is_neutral(scripts[0]) {
        scripts[0]
    } else {
        first_script(scripts.drop_first())
    }
}

} // verus!
