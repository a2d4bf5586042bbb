//! Lists of labels, seen as sequences of character sequences.

use vstd::prelude::*;

verus! {

/// The labels of `v`, each taken by its characters.
pub open spec fn texts(v: Seq<String>) -> Seq<Seq<char>> {
    v.map_values(|s: String| s@)
}

/// The characters of an optional label.
pub open spec fn option_text(label: Option<String>) -> Option<Seq<char>> {
    match label {
        None => None,
        Some(s) => Some(s@),
    }
}

/// A copy of `v` that holds the same labels in the same order.
pub fn copy_labels(v: &Vec<String>) -> (copy: Vec<String>)
    ensures
        texts(copy@) == texts(v@),
        copy@.len() == v@.len(),
{
    let mut copy: Vec<String> = Vec::new();
    let mut i: usize = 0;
    while i < v.len()
        invariant
            i <= v@.len(),
            copy@.len() == i,
            forall|k: int| 0 <= k < i ==> (#[trigger] copy@[k])@ == v@[k]@,
        decreases v@.len() - i,
    {
        copy.push(v[i].clone());
        i = i + 1;
    }
    assert(texts(copy@) =~= texts(v@));
    copy
}

} // verus!
