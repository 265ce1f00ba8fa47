//! The typed failures of the ledger's operations.
//!
//! Every violation aborts the enclosing operation with no effect on any
//! record; the caller decides whether to retry or compensate.

use vstd::prelude::*;

verus! {

/// One typed failure per validation, business-rule, arithmetic or
/// authorization violation.
#[derive(PartialEq, Eq, Structural, Clone, Copy, Debug)]
pub enum RepError {
    /// The archetype label exceeds the maximum length.
    ArchetypeTooLong,
    /// More skills were provided than an identity may declare.
    TooManySkills,
    /// A skill name exceeds the maximum length.
    SkillNameTooLong,
    /// A rating outside the 1..=5 range.
    InvalidRating,
    /// A participant tried to rate their own identity.
    CannotRateSelf,
    /// An unsigned counter would overflow its ceiling.
    Overflow,
    /// The endorsed skill is not declared on the recipient's identity.
    SkillNotFound,
    /// This endorser has already endorsed this skill on this recipient.
    AlreadyEndorsed,
    /// The recipient's endorsement list is full.
    TooManyEndorsements,
    /// A participant tried to endorse their own identity.
    CannotEndorseSelf,
    /// The caller is not the configured backend authority.
    Unauthorized,
}

} // verus!
