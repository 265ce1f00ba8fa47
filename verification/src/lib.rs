//! A permissioned reputation ledger: one soulbound identity record per
//! participant, a karma score accumulated from peer ratings, append-only
//! skill endorsements, and an abandonment-penalty counter that can flag a
//! participant as unreliable.
//!
//! The five operations (`initialize_user`, `initialize_config`,
//! `award_karma`, `endorse_skill`, `penalize_abandonment`) are pure state
//! transitions: each takes an authenticated caller key and the records it
//! reads or mutates, validates, and either applies its whole effect or
//! returns a typed error with no effect at all. The hosting store and the
//! signature checks around them are outside this crate.

use vstd::prelude::*;

pub mod archetypes;
pub mod errors;
pub mod laws;
pub mod ops;
pub mod state;

verus! {

/// A 32-byte public key, held as four 64-bit words.
#[derive(PartialEq, Eq, Structural, Clone, Copy, Debug)]
pub struct Pubkey {
    pub w0: u64,
    pub w1: u64,
    pub w2: u64,
    pub w3: u64,
}

} // verus!
