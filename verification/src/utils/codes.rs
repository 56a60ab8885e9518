//! Characters as numbers.

use vstd::prelude::*;

verus! {

/// The code point of a character.
pub open spec fn char_code(c: char) -> int {
    c as int
}

} // verus!
