//! Comparing names spelled as text.
use vstd::prelude::*;

verus! {

/// The two texts spell the same characters.
pub fn same_text(a: &str, b: &str) -> (r: bool)
    ensures
        r == (a@ == b@),
{
    let x = String::from_str(a);
    let y = String::from_str(b);
    x == y
}

} // verus!
