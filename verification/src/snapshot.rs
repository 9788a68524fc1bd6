use vstd::prelude::*;

verus! {

/// The answer to a final-state query on a resource snapshot: the access,
/// layout and pipeline stages that the native query wrote, when it reports
/// success, and nothing otherwise.
pub fn final_state<A, L, S>(success: bool, access: A, layout: L, stages: S) -> (state: Option<(A, L, S)>)
    ensures
        state == (if success { Some((access, layout, stages)) } else { None::<(A, L, S)> }),
{
    if success {
        Some((access, layout, stages))
    } else {
        None
    }
}

} // verus!
