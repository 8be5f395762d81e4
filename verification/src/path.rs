//! Absolute paths, held as the names that lead from the root to a place.
//! The root itself is the empty path.
use vstd::prelude::*;

verus! {

/// A copy of `path`.
pub fn clone_path(path: &Vec<String>) -> (copy: Vec<String>)
    ensures
        copy.deep_view() == path.deep_view(),
{
    let mut copy: Vec<String> = Vec::new();
    let mut i: usize = 0;
    while i < path.len()
        invariant
            i <= path.len(),
            copy.len() == i,
            forall|k: int| 0 <= k < i ==> copy[k]@ == path[k]@,
        decreases path.len() - i,
    {
        copy.push(path[i].clone());
        i += 1;
    }
    assert(copy.deep_view() =~= path.deep_view());
    copy
}

/// The place called `name` inside the directory `dir`.
pub fn join(dir: &Vec<String>, name: &String) -> (place: Vec<String>)
    ensures
        place.deep_view() == dir.deep_view().push(name@),
{
    let mut place = clone_path(dir);
    place.push(name.clone());
    assert(place.deep_view() =~= dir.deep_view().push(name@));
    place
}

} // verus!
