//! Comparing texts.

use vstd::prelude::*;
use vstd::string::StringExecFns;

verus! {

/// Whether two texts hold the same characters.
pub fn same_text(text: &str, other: &str) -> (same: bool)
    ensures
        same == (text@ == other@),
{
    let text = String::from_str(text);
    let other = String::from_str(other);
    text == other
}

} // verus!
