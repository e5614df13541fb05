//! Small verified string helpers.
use vstd::prelude::*;

verus! {

/// Exact equality of two string slices, decided by their contents.
pub fn str_eq(a: &str, b: &str) -> (r: bool)
    ensures
        r == (a@ == b@),
{
    let sa = String::from_str(a);
    let sb = String::from_str(b);
    sa == sb
}

} // verus!
