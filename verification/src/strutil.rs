//! Small helpers over sequences of strings.

use vstd::prelude::*;

verus! {

/// The views of all strings in a sequence.
pub open spec fn string_views(v: Seq<String>) -> Seq<Seq<char>> {
    v.map_values(|s: String| s@)
}

/// Holds when some string in `v` has view `s`.
pub open spec fn seq_has_str(v: Seq<String>, s: Seq<char>) -> bool {
    exists|j: int| 0 <= j < v.len() && v[j]@ == s
}

/// Whether `v` contains a string equal to `s`.
pub fn contains_str(v: &Vec<String>, s: &String) -> (r: bool)
    ensures
        r == seq_has_str(v@, s@),
{
    let mut j: usize = 0;
    while j < v.len()
        invariant
            0 <= j <= v@.len(),
            forall|k: int| 0 <= k < j ==> v@[k]@ != s@,
        decreases v@.len() - j,
    {
        if v[j].eq(s) {
            return true;
        }
        j = j + 1;
    }
    false
}

} // verus!
