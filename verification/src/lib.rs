//! A character-sheet engine for a tabletop ruleset: validates a player's
//! sheet against an authoritative template, and resolves dice rolls against
//! the sheet's attributes, skills and perks.

use vstd::prelude::*;

pub mod character_roll;
pub mod character_sheet;
pub mod character_sheet_validator;
pub mod character_template;

verus! {

/// The non-negative part of `x`: zero for negative values.
pub open spec fn pos_part(x: int) -> int {
    if x < 0 {
        0
    } else {
        x
    }
}

/// The absolute value of `x`.
pub open spec fn abs_part(x: int) -> int {
    if x < 0 {
        -x
    } else {
        x
    }
}

} // verus!
