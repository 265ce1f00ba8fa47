//! The five state-transition operations of the ledger.
//!
//! Each operation takes the authenticated caller key and the records it
//! reads or mutates, validates in a fixed order, and either applies its
//! whole effect or returns one typed error and leaves every record exactly
//! as it was.

use vstd::prelude::*;
use crate::Pubkey;
use crate::archetypes::are_complementary;
use crate::archetypes::complementary;
use crate::errors::RepError;
use crate::state::ABANDONMENT_FLAG_THRESHOLD;
use crate::state::ABANDONMENT_PENALTY;
use crate::state::Endorsement;
use crate::state::MAX_ARCHETYPE_LEN;
use crate::state::MAX_ENDORSEMENTS;
use crate::state::MAX_SKILLS;
use crate::state::MAX_SKILL_NAME_LEN;
use crate::state::ProgramConfig;
use crate::state::SkillWeight;
use crate::state::UserIdentity;
use crate::state::already_endorsed;
use crate::state::bytes_eq;
use crate::state::endorsements_unique;
use crate::state::skill_listed;
use crate::state::skill_names_ok;

verus! {

/// The karma a rating is worth before any bonus.
pub open spec fn base_karma(rating: u8) -> int {
    rating as int * 10
}

/// The karma one rating awards: the base, raised by half (truncating)
/// when the two archetypes are complementary.
pub open spec fn award_amount(rater_arch: Seq<u8>, recipient_arch: Seq<u8>, rating: u8) -> int {
    if complementary(rater_arch, recipient_arch) {
        base_karma(rating) * 3 / 2
    } else {
        base_karma(rating)
    }
}

/// Are the creation inputs of an identity within every ceiling?
pub open spec fn creation_inputs_ok(archetype: Seq<u8>, skills: Seq<SkillWeight>) -> bool {
    &&& archetype.len() <= MAX_ARCHETYPE_LEN
    &&& skills.len() <= MAX_SKILLS
    &&& skill_names_ok(skills)
}

/// Provision a fresh identity record for `caller`.
///
/// The record starts with zero karma, no endorsements, a zero penalty
/// count and the flag clear; the archetype and skill list are fixed for
/// the record's whole life. The hosting store, not this operation,
/// rejects a second record for the same owner.
pub fn initialize_user(caller: Pubkey, archetype: Vec<u8>, skill_weights: Vec<SkillWeight>) -> (r:
    Result<UserIdentity, RepError>)
    ensures
        r is Ok <==> creation_inputs_ok(archetype@, skill_weights@),
        (r is Err && r->Err_0 == RepError::ArchetypeTooLong) <==> archetype@.len()
            > MAX_ARCHETYPE_LEN,
        (r is Err && r->Err_0 == RepError::TooManySkills) <==> (archetype@.len()
            <= MAX_ARCHETYPE_LEN && skill_weights@.len() > MAX_SKILLS),
        (r is Err && r->Err_0 == RepError::SkillNameTooLong) <==> (archetype@.len()
            <= MAX_ARCHETYPE_LEN && skill_weights@.len() <= MAX_SKILLS && !skill_names_ok(
            skill_weights@,
        )),
        r is Ok ==> {
            let id = r->Ok_0;
            &&& id.owner == caller
            &&& id.archetype == archetype
            &&& id.skill_weights == skill_weights
            &&& id.karma == 0
            &&& id.endorsements@.len() == 0
            &&& id.abandonment_count == 0
            &&& id.is_flagged == false
            &&& id.wf()
        },
{
    if archetype.len() > MAX_ARCHETYPE_LEN {
        return Err(RepError::ArchetypeTooLong);
    }
    if skill_weights.len() > MAX_SKILLS {
        return Err(RepError::TooManySkills);
    }
    let mut i: usize = 0;
    while i < skill_weights.len()
        invariant
            archetype@.len() <= MAX_ARCHETYPE_LEN,
            skill_weights@.len() <= MAX_SKILLS,
            i <= skill_weights@.len(),
            forall|k: int|
                0 <= k < i ==> (#[trigger] skill_weights@[k]).name@.len() <= MAX_SKILL_NAME_LEN,
        decreases skill_weights@.len() - i,
    {
        if skill_weights[i].name.len() > MAX_SKILL_NAME_LEN {
            return Err(RepError::SkillNameTooLong);
        }
        i += 1;
    }
    Ok(
        UserIdentity {
            owner: caller,
            archetype,
            skill_weights,
            karma: 0,
            endorsements: Vec::new(),
            abandonment_count: 0,
            is_flagged: false,
        },
    )
}

/// Provision the config singleton with the supplied backend authority.
///
/// The caller pays for the record but need not equal the authority, and
/// nothing here restricts who calls first: the hosting store's
/// create-if-absent guard is the only protection against a second claim.
#[allow(unused_variables)]
pub fn initialize_config(caller: Pubkey, authority: Pubkey) -> (c: ProgramConfig)
    ensures
        c.authority == authority,
{
    ProgramConfig { authority }
}

/// One participant rates another; the recipient's karma grows by the
/// rating's worth.
///
/// The rater hands in their own identity record so the operation can read
/// their archetype for the complementary bonus.
pub fn award_karma(
    rater: Pubkey,
    rater_identity: &UserIdentity,
    rating: u8,
    recipient: &mut UserIdentity,
) -> (r: Result<(), RepError>)
    requires
        rater_identity.owner == rater,
    ensures
        (r is Err && r->Err_0 == RepError::InvalidRating) <==> !(1 <= rating <= 5),
        (r is Err && r->Err_0 == RepError::CannotRateSelf) <==> (1 <= rating <= 5 && rater == old(
            recipient,
        ).owner),
        (r is Err && r->Err_0 == RepError::Overflow) <==> (1 <= rating <= 5 && rater != old(
            recipient,
        ).owner && old(recipient).karma + award_amount(
            rater_identity.archetype@,
            old(recipient).archetype@,
            rating,
        ) > u64::MAX),
        r is Ok <==> (1 <= rating <= 5 && rater != old(recipient).owner && old(recipient).karma
            + award_amount(rater_identity.archetype@, old(recipient).archetype@, rating)
            <= u64::MAX),
        r is Ok ==> final(recipient).karma == old(recipient).karma + award_amount(
            rater_identity.archetype@,
            old(recipient).archetype@,
            rating,
        ),
        r is Err ==> *final(recipient) == *old(recipient),
        rater == old(recipient).owner ==> r is Err,
        final(recipient).owner == old(recipient).owner,
        final(recipient).archetype == old(recipient).archetype,
        final(recipient).skill_weights == old(recipient).skill_weights,
        final(recipient).endorsements == old(recipient).endorsements,
        final(recipient).abandonment_count == old(recipient).abandonment_count,
        final(recipient).is_flagged == old(recipient).is_flagged,
        old(recipient).wf() ==> final(recipient).wf(),
{
    if rating < 1 || rating > 5 {
        return Err(RepError::InvalidRating);
    }
    if rater == recipient.owner {
        return Err(RepError::CannotRateSelf);
    }
    let base: u64 = (rating as u64) * 10;
    let awarded: u64 = if are_complementary(&rater_identity.archetype, &recipient.archetype) {
        base * 3 / 2
    } else {
        base
    };
    let new_karma: u64 = match recipient.karma.checked_add(awarded) {
        Some(k) => k,
        None => {
            return Err(RepError::Overflow);
        },
    };
    recipient.karma = new_karma;
    Ok(())
}

/// One participant vouches for one of the recipient's declared skills.
///
/// The endorsement list is append-only: a successful call adds exactly one
/// entry at the end and touches nothing else.
pub fn endorse_skill(endorser: Pubkey, skill_name: Vec<u8>, recipient: &mut UserIdentity) -> (r:
    Result<(), RepError>)
    ensures
        (r is Err && r->Err_0 == RepError::SkillNameTooLong) <==> skill_name@.len()
            > MAX_SKILL_NAME_LEN,
        (r is Err && r->Err_0 == RepError::CannotEndorseSelf) <==> (skill_name@.len()
            <= MAX_SKILL_NAME_LEN && endorser == old(recipient).owner),
        (r is Err && r->Err_0 == RepError::SkillNotFound) <==> (skill_name@.len()
            <= MAX_SKILL_NAME_LEN && endorser != old(recipient).owner && !skill_listed(
            old(recipient).skill_weights@,
            skill_name@,
        )),
        (r is Err && r->Err_0 == RepError::AlreadyEndorsed) <==> (skill_name@.len()
            <= MAX_SKILL_NAME_LEN && endorser != old(recipient).owner && skill_listed(
            old(recipient).skill_weights@,
            skill_name@,
        ) && already_endorsed(old(recipient).endorsements@, endorser, skill_name@)),
        (r is Err && r->Err_0 == RepError::TooManyEndorsements) <==> (skill_name@.len()
            <= MAX_SKILL_NAME_LEN && endorser != old(recipient).owner && skill_listed(
            old(recipient).skill_weights@,
            skill_name@,
        ) && !already_endorsed(old(recipient).endorsements@, endorser, skill_name@) && old(
            recipient,
        ).endorsements@.len() >= MAX_ENDORSEMENTS),
        r is Ok <==> (skill_name@.len() <= MAX_SKILL_NAME_LEN && endorser != old(recipient).owner
            && skill_listed(old(recipient).skill_weights@, skill_name@) && !already_endorsed(
            old(recipient).endorsements@,
            endorser,
            skill_name@,
        ) && old(recipient).endorsements@.len() < MAX_ENDORSEMENTS),
        r is Ok ==> final(recipient).endorsements@ == old(recipient).endorsements@.push(
            (Endorsement { endorser, skill: skill_name }),
        ),
        r is Err ==> *final(recipient) == *old(recipient),
        endorser == old(recipient).owner ==> r is Err,
        final(recipient).owner == old(recipient).owner,
        final(recipient).archetype == old(recipient).archetype,
        final(recipient).skill_weights == old(recipient).skill_weights,
        final(recipient).karma == old(recipient).karma,
        final(recipient).abandonment_count == old(recipient).abandonment_count,
        final(recipient).is_flagged == old(recipient).is_flagged,
        old(recipient).wf() ==> final(recipient).wf(),
{
    if skill_name.len() > MAX_SKILL_NAME_LEN {
        return Err(RepError::SkillNameTooLong);
    }
    if endorser == recipient.owner {
        return Err(RepError::CannotEndorseSelf);
    }
    let mut skill_exists = false;
    let mut i: usize = 0;
    while i < recipient.skill_weights.len()
        invariant
            i <= recipient.skill_weights@.len(),
            skill_exists ==> skill_listed(recipient.skill_weights@, skill_name@),
            !skill_exists ==> forall|k: int|
                0 <= k < i ==> (#[trigger] recipient.skill_weights@[k]).name@ != skill_name@,
        decreases recipient.skill_weights@.len() - i,
    {
        if bytes_eq(&recipient.skill_weights[i].name, &skill_name) {
            skill_exists = true;
        }
        i += 1;
    }
    if !skill_exists {
        return Err(RepError::SkillNotFound);
    }
    let mut duplicate = false;
    let mut j: usize = 0;
    while j < recipient.endorsements.len()
        invariant
            j <= recipient.endorsements@.len(),
            duplicate ==> already_endorsed(recipient.endorsements@, endorser, skill_name@),
            !duplicate ==> forall|k: int|
                0 <= k < j ==> !((#[trigger] recipient.endorsements@[k]).endorser == endorser
                    && recipient.endorsements@[k].skill@ == skill_name@),
        decreases recipient.endorsements@.len() - j,
    {
        if recipient.endorsements[j].endorser == endorser && bytes_eq(
            &recipient.endorsements[j].skill,
            &skill_name,
        ) {
            duplicate = true;
        }
        j += 1;
    }
    if duplicate {
        return Err(RepError::AlreadyEndorsed);
    }
    if recipient.endorsements.len() >= MAX_ENDORSEMENTS {
        return Err(RepError::TooManyEndorsements);
    }
    let ghost pre = *recipient;
    recipient.endorsements.push(Endorsement { endorser, skill: skill_name });
    proof {
        if pre.wf() {
            let es = recipient.endorsements@;
            assert forall|a: int, b: int| 0 <= a < b < es.len() implies !(#[trigger] es[a].endorser
                == #[trigger] es[b].endorser && es[a].skill@ == es[b].skill@) by {
                if b == es.len() - 1 {
                    assert(!(es[a].endorser == endorser && es[a].skill@ == skill_name@));
                }
            }
            assert(endorsements_unique(es));
        }
    }
    Ok(())
}

/// The configured backend authority records one abandonment: karma drops
/// by the fixed penalty (never below zero), the penalty counter grows by
/// one, and the identity is flagged once the counter reaches the
/// threshold.
///
/// The flag is one-way: this operation sets it and nothing clears it.
pub fn penalize_abandonment(
    authority_caller: Pubkey,
    config: &ProgramConfig,
    target: &mut UserIdentity,
) -> (r: Result<(), RepError>)
    ensures
        (r is Err && r->Err_0 == RepError::Unauthorized) <==> authority_caller != config.authority,
        (r is Err && r->Err_0 == RepError::Overflow) <==> (authority_caller == config.authority
            && old(target).abandonment_count == u8::MAX),
        r is Ok <==> (authority_caller == config.authority && old(target).abandonment_count
            < u8::MAX),
        r is Ok ==> final(target).karma == if old(target).karma >= ABANDONMENT_PENALTY {
            old(target).karma - ABANDONMENT_PENALTY
        } else {
            0
        },
        r is Ok ==> final(target).abandonment_count == old(target).abandonment_count + 1,
        r is Ok ==> final(target).is_flagged == (old(target).is_flagged || old(
            target,
        ).abandonment_count + 1 >= ABANDONMENT_FLAG_THRESHOLD),
        r is Err ==> *final(target) == *old(target),
        final(target).owner == old(target).owner,
        final(target).archetype == old(target).archetype,
        final(target).skill_weights == old(target).skill_weights,
        final(target).endorsements == old(target).endorsements,
        final(target).abandonment_count >= old(target).abandonment_count,
        old(target).is_flagged ==> final(target).is_flagged,
        old(target).wf() ==> final(target).wf(),
{
    if authority_caller != config.authority {
        return Err(RepError::Unauthorized);
    }
    let new_count: u8 = match target.abandonment_count.checked_add(1) {
        Some(c) => c,
        None => {
            return Err(RepError::Overflow);
        },
    };
    target.karma = target.karma.saturating_sub(ABANDONMENT_PENALTY);
    target.abandonment_count = new_count;
    if new_count >= ABANDONMENT_FLAG_THRESHOLD {
        target.is_flagged = true;
    }
    Ok(())
}

} // verus!
