//! Provenance chains: fork points, and the storage-independent verification
//! of a chain given its log rows and recorded heads.

use vstd::prelude::*;

verus! {

/// A predecessor in an entity's log that has more than one child — the point
/// at which the history diverged.
#[derive(Debug, Clone, PartialEq, Eq)]
pub struct ForkPoint {
    /// Hash of the shared predecessor entry (or `""` for a forked genesis).
    pub predecessor: String,
    /// How many distinct children chain directly from it (always at least 2).
    pub children: u64,
}

} // verus!
