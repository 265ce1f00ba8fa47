//! The two record types of the ledger and their well-formedness.
//!
//! An identity record is soulbound: it is created once by its owner and
//! never re-homed or deleted. The config singleton holds the one backend
//! authority allowed to apply abandonment penalties.

use vstd::prelude::*;
use crate::Pubkey;

verus! {

/// Longest archetype label, in bytes.
pub const MAX_ARCHETYPE_LEN: usize = 32;
/// Longest skill name, in bytes.
pub const MAX_SKILL_NAME_LEN: usize = 32;
/// Most skills an identity may declare at creation.
pub const MAX_SKILLS: usize = 10;
/// Most endorsements an identity may hold.
pub const MAX_ENDORSEMENTS: usize = 20;
/// Karma deducted by one abandonment penalty.
pub const ABANDONMENT_PENALTY: u64 = 25;
/// Penalty count at which an identity is flagged.
pub const ABANDONMENT_FLAG_THRESHOLD: u8 = 3;

/// One declared skill and its weight, fixed at identity creation.
#[derive(Clone)]
pub struct SkillWeight {
    /// Skill name, at most `MAX_SKILL_NAME_LEN` bytes.
    pub name: Vec<u8>,
    /// Weight assigned by the owner at creation.
    pub weight: u16,
}

/// One third-party vouch for a declared skill of the recipient.
#[derive(Clone)]
pub struct Endorsement {
    /// The participant who vouched.
    pub endorser: Pubkey,
    /// The endorsed skill, one of the recipient's declared skill names.
    pub skill: Vec<u8>,
}

/// The per-participant identity record.
#[derive(Clone)]
pub struct UserIdentity {
    /// The participant's public key; set at creation, never reassigned.
    pub owner: Pubkey,
    /// Categorical label used for the complementary-rating bonus.
    pub archetype: Vec<u8>,
    /// Declared skills, fixed at creation.
    pub skill_weights: Vec<SkillWeight>,
    /// Accumulated reputation score.
    pub karma: u64,
    /// Append-only endorsement list.
    pub endorsements: Vec<Endorsement>,
    /// How many abandonment penalties were applied; never reset.
    pub abandonment_count: u8,
    /// Set once the penalty count reaches the threshold; never cleared.
    pub is_flagged: bool,
}

/// The config singleton: the one key allowed to apply penalties.
#[derive(Clone)]
pub struct ProgramConfig {
    /// The trusted backend authority.
    pub authority: Pubkey,
}

/// Is every declared skill name within the length ceiling?
pub open spec fn skill_names_ok(skills: Seq<SkillWeight>) -> bool {
    forall|i: int|
        0 <= i < skills.len() ==> (#[trigger] skills[i]).name@.len() <= MAX_SKILL_NAME_LEN
}

/// Byte-for-byte comparison of two names.
pub fn bytes_eq(a: &Vec<u8>, b: &Vec<u8>) -> (r: bool)
    ensures
        r == (a@ == b@),
{
    if a.len() != b.len() {
        proof {
            assert(a@.len() != b@.len());
        }
        return false;
    }
    let mut i: usize = 0;
    while i < a.len()
        invariant
            a@.len() == b@.len(),
            i <= a@.len(),
            forall|k: int| 0 <= k < i ==> a@[k] == b@[k],
        decreases a@.len() - i,
    {
        if a[i] != b[i] {
            return false;
        }
        i += 1;
    }
    proof {
        assert(a@ =~= b@);
    }
    true
}

/// Does some declared skill carry exactly this name?
pub open spec fn skill_listed(skills: Seq<SkillWeight>, name: Seq<u8>) -> bool {
    exists|i: int| 0 <= i < skills.len() && skills[i].name@ == name
}

/// Has this endorser already endorsed this skill in this list?
pub open spec fn already_endorsed(
    endorsements: Seq<Endorsement>,
    endorser: Pubkey,
    skill: Seq<u8>,
) -> bool {
    exists|i: int|
        0 <= i < endorsements.len() && endorsements[i].endorser == endorser
            && endorsements[i].skill@ == skill
}

/// No two endorsements share both endorser and skill.
pub open spec fn endorsements_unique(endorsements: Seq<Endorsement>) -> bool {
    forall|i: int, j: int|
        0 <= i < j < endorsements.len() ==> !(#[trigger] endorsements[i].endorser
            == #[trigger] endorsements[j].endorser && endorsements[i].skill@
            == endorsements[j].skill@)
}

impl UserIdentity {
    /// Well-formedness: the size ceilings hold, every endorsement names a
    /// declared skill, and no (endorser, skill) pair appears twice.
    pub open spec fn wf(self) -> bool {
        &&& self.archetype@.len() <= MAX_ARCHETYPE_LEN
        &&& self.skill_weights@.len() <= MAX_SKILLS
        &&& skill_names_ok(self.skill_weights@)
        &&& self.endorsements@.len() <= MAX_ENDORSEMENTS
        &&& forall|i: int|
            0 <= i < self.endorsements@.len()
                ==> (#[trigger] self.endorsements@[i]).skill@.len() <= MAX_SKILL_NAME_LEN
                    && skill_listed(self.skill_weights@, self.endorsements@[i].skill@)
        &&& endorsements_unique(self.endorsements@)
    }
}

} // verus!
