//! Ledger-wide guarantees, stated once and proved.
//!
//! The per-operation contracts in `ops` already pin each transition down;
//! the lemmas here state the global consequences a reader of the data
//! model cares about.

use vstd::prelude::*;
use crate::state::UserIdentity;
use crate::state::endorsements_unique;

verus! {

/// Karma never drops below zero. The score is an unsigned counter in
/// every identity, and the penalty operation saturates at zero instead of
/// underflowing, so every identity in every reachable state satisfies
/// this.
pub proof fn lemma_karma_floor(id: UserIdentity)
    ensures
        id.karma >= 0,
{
}

/// A well-formed identity holds no two endorsements that share both the
/// endorser and the skill. Creation establishes well-formedness and every
/// operation preserves it, so stored endorsements stay unique.
pub proof fn lemma_wf_endorsements_unique(id: UserIdentity)
    requires
        id.wf(),
    ensures
        endorsements_unique(id.endorsements@),
{
}

} // verus!
