//! Small executable helpers over strings whose results are pinned to the
//! string views.

use vstd::prelude::*;

verus! {

/// Exact, case-sensitive equality of two string slices, decided at the level
/// of their character sequences.
pub fn str_eq(a: &str, b: &str) -> (r: bool)
    ensures
        r == (a@ == b@),
{
    let owned_a: String = a.to_owned();
    let owned_b: String = b.to_owned();
    owned_a == owned_b
}

} // verus!
