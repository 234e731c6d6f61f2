//! The update policy: when does a candidate version trigger an update?

use vstd::prelude::*;

verus! {

/// A candidate version triggers an update exactly when it differs from the
/// running version. The policy is deliberately permissive: any difference
/// counts, so downgrades trigger an update just like upgrades.
pub open spec fn spec_update_wanted(current: Seq<char>, candidate: Seq<char>) -> bool {
    candidate != current
}

/// Decides whether the candidate version should replace the current one.
pub fn update_wanted(current: &String, candidate: &String) -> (wanted: bool)
    ensures
        wanted == spec_update_wanted(current@, candidate@),
{
    !candidate.eq(current)
}

} // verus!
