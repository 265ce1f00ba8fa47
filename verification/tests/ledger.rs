//! End-to-end tests of the reputation ledger's five operations.

use reputation_ledger::Pubkey;
use reputation_ledger::errors::RepError;
use reputation_ledger::ops::award_karma;
use reputation_ledger::ops::endorse_skill;
use reputation_ledger::ops::initialize_config;
use reputation_ledger::ops::initialize_user;
use reputation_ledger::ops::penalize_abandonment;
use reputation_ledger::state::SkillWeight;
use reputation_ledger::state::UserIdentity;

fn key(n: u64) -> Pubkey {
    Pubkey { w0: n, w1: 0, w2: 0, w3: 0 }
}

fn skill(name: &str, weight: u16) -> SkillWeight {
    SkillWeight { name: name.as_bytes().to_vec(), weight }
}

fn user(owner: Pubkey, archetype: &str, skills: Vec<SkillWeight>) -> UserIdentity {
    initialize_user(owner, archetype.as_bytes().to_vec(), skills).expect("valid creation inputs")
}

#[test]
fn create_identity_starts_fresh() {
    let id = user(key(1), "builder", vec![skill("rust", 5)]);
    assert_eq!(id.owner, key(1));
    assert_eq!(id.archetype, b"builder".to_vec());
    assert_eq!(id.skill_weights.len(), 1);
    assert_eq!(id.skill_weights[0].name, b"rust".to_vec());
    assert_eq!(id.skill_weights[0].weight, 5);
    assert_eq!(id.karma, 0);
    assert!(id.endorsements.is_empty());
    assert_eq!(id.abandonment_count, 0);
    assert!(!id.is_flagged);
}

#[test]
fn create_identity_rejects_long_archetype() {
    let long = "x".repeat(33);
    let r = initialize_user(key(1), long.as_bytes().to_vec(), Vec::new());
    assert_eq!(r.err(), Some(RepError::ArchetypeTooLong));
}

#[test]
fn create_identity_accepts_edge_sizes() {
    let archetype = "y".repeat(32);
    let name = "z".repeat(32);
    let skills: Vec<SkillWeight> = (0..10).map(|_| skill(&name, 1)).collect();
    let r = initialize_user(key(1), archetype.as_bytes().to_vec(), skills);
    assert!(r.is_ok());
}

#[test]
fn create_identity_rejects_too_many_skills() {
    let skills: Vec<SkillWeight> = (0..11).map(|_| skill("s", 1)).collect();
    let r = initialize_user(key(1), b"builder".to_vec(), skills);
    assert_eq!(r.err(), Some(RepError::TooManySkills));
}

#[test]
fn create_identity_rejects_long_skill_name() {
    let name = "n".repeat(33);
    let r = initialize_user(key(1), b"builder".to_vec(), vec![skill(&name, 1)]);
    assert_eq!(r.err(), Some(RepError::SkillNameTooLong));
}

#[test]
fn config_holds_supplied_authority() {
    let cfg = initialize_config(key(7), key(9));
    assert_eq!(cfg.authority, key(9));
}

#[test]
fn complementary_rating_earns_bonus() {
    let mut recipient = user(key(1), "builder", vec![skill("rust", 5)]);
    let rater = user(key(2), "designer", Vec::new());
    let r = award_karma(key(2), &rater, 4, &mut recipient);
    assert!(r.is_ok());
    assert_eq!(recipient.karma, 60);
}

#[test]
fn bonus_ignores_case_and_order() {
    let mut recipient = user(key(1), "DESIGNER", Vec::new());
    let rater = user(key(2), "Builder", Vec::new());
    let r = award_karma(key(2), &rater, 2, &mut recipient);
    assert!(r.is_ok());
    assert_eq!(recipient.karma, 30);
}

#[test]
fn plain_rating_earns_base_only() {
    let mut recipient = user(key(1), "builder", Vec::new());
    let rater = user(key(2), "builder", Vec::new());
    let r = award_karma(key(2), &rater, 3, &mut recipient);
    assert!(r.is_ok());
    assert_eq!(recipient.karma, 30);
}

#[test]
fn rating_outside_range_rejected() {
    let mut recipient = user(key(1), "builder", Vec::new());
    let rater = user(key(2), "mentor", Vec::new());
    let r = award_karma(key(2), &rater, 0, &mut recipient);
    assert_eq!(r.err(), Some(RepError::InvalidRating));
    let r = award_karma(key(2), &rater, 6, &mut recipient);
    assert_eq!(r.err(), Some(RepError::InvalidRating));
    assert_eq!(recipient.karma, 0);
}

#[test]
fn self_rating_rejected() {
    let mut recipient = user(key(1), "builder", Vec::new());
    let rater = recipient.clone();
    let r = award_karma(key(1), &rater, 5, &mut recipient);
    assert_eq!(r.err(), Some(RepError::CannotRateSelf));
    assert_eq!(recipient.karma, 0);
}

#[test]
fn karma_overflow_rejected_without_effect() {
    let mut recipient = user(key(1), "builder", Vec::new());
    recipient.karma = u64::MAX - 10;
    let rater = user(key(2), "hacker", Vec::new());
    let r = award_karma(key(2), &rater, 5, &mut recipient);
    assert_eq!(r.err(), Some(RepError::Overflow));
    assert_eq!(recipient.karma, u64::MAX - 10);
}

#[test]
fn owner_survives_every_operation() {
    let mut id = user(key(1), "builder", vec![skill("rust", 5)]);
    let rater = user(key(2), "designer", Vec::new());
    award_karma(key(2), &rater, 4, &mut id).unwrap();
    endorse_skill(key(2), b"rust".to_vec(), &mut id).unwrap();
    let cfg = initialize_config(key(7), key(9));
    penalize_abandonment(key(9), &cfg, &mut id).unwrap();
    assert_eq!(id.owner, key(1));
}

#[test]
fn endorse_appends_exactly_one_entry() {
    let mut id = user(key(1), "builder", vec![skill("rust", 5), skill("go", 3)]);
    let r = endorse_skill(key(2), b"go".to_vec(), &mut id);
    assert!(r.is_ok());
    assert_eq!(id.endorsements.len(), 1);
    assert_eq!(id.endorsements[0].endorser, key(2));
    assert_eq!(id.endorsements[0].skill, b"go".to_vec());
    assert_eq!(id.karma, 0);
}

#[test]
fn endorse_missing_skill_then_duplicate() {
    let mut id = user(key(1), "builder", vec![skill("rust", 5)]);
    let r = endorse_skill(key(2), b"go".to_vec(), &mut id);
    assert_eq!(r.err(), Some(RepError::SkillNotFound));
    let r = endorse_skill(key(2), b"rust".to_vec(), &mut id);
    assert!(r.is_ok());
    let r = endorse_skill(key(2), b"rust".to_vec(), &mut id);
    assert_eq!(r.err(), Some(RepError::AlreadyEndorsed));
    assert_eq!(id.endorsements.len(), 1);
}

#[test]
fn endorsement_skill_match_is_case_sensitive() {
    let mut id = user(key(1), "builder", vec![skill("rust", 5)]);
    let r = endorse_skill(key(2), b"Rust".to_vec(), &mut id);
    assert_eq!(r.err(), Some(RepError::SkillNotFound));
}

#[test]
fn self_endorsement_rejected() {
    let mut id = user(key(1), "builder", vec![skill("rust", 5)]);
    let r = endorse_skill(key(1), b"rust".to_vec(), &mut id);
    assert_eq!(r.err(), Some(RepError::CannotEndorseSelf));
    assert!(id.endorsements.is_empty());
}

#[test]
fn endorse_rejects_long_name() {
    let mut id = user(key(1), "builder", vec![skill("rust", 5)]);
    let long = "n".repeat(33);
    let r = endorse_skill(key(2), long.as_bytes().to_vec(), &mut id);
    assert_eq!(r.err(), Some(RepError::SkillNameTooLong));
}

#[test]
fn endorsement_list_fills_up_at_twenty() {
    let mut id = user(key(1), "builder", vec![skill("rust", 5)]);
    for n in 0..20 {
        let r = endorse_skill(key(100 + n), b"rust".to_vec(), &mut id);
        assert!(r.is_ok());
    }
    assert_eq!(id.endorsements.len(), 20);
    let r = endorse_skill(key(200), b"rust".to_vec(), &mut id);
    assert_eq!(r.err(), Some(RepError::TooManyEndorsements));
    assert_eq!(id.endorsements.len(), 20);
}

#[test]
fn stored_endorsements_stay_unique() {
    let mut id = user(key(1), "builder", vec![skill("rust", 5), skill("go", 3)]);
    endorse_skill(key(2), b"rust".to_vec(), &mut id).unwrap();
    endorse_skill(key(2), b"go".to_vec(), &mut id).unwrap();
    endorse_skill(key(3), b"rust".to_vec(), &mut id).unwrap();
    let _ = endorse_skill(key(2), b"rust".to_vec(), &mut id);
    for i in 0..id.endorsements.len() {
        for j in (i + 1)..id.endorsements.len() {
            let same = id.endorsements[i].endorser == id.endorsements[j].endorser
                && id.endorsements[i].skill == id.endorsements[j].skill;
            assert!(!same);
        }
    }
}

#[test]
fn three_penalties_flag_on_the_third() {
    let cfg = initialize_config(key(7), key(9));
    let mut id = user(key(1), "builder", Vec::new());
    id.karma = 100;
    penalize_abandonment(key(9), &cfg, &mut id).unwrap();
    assert_eq!(id.karma, 75);
    assert_eq!(id.abandonment_count, 1);
    assert!(!id.is_flagged);
    penalize_abandonment(key(9), &cfg, &mut id).unwrap();
    assert_eq!(id.karma, 50);
    assert_eq!(id.abandonment_count, 2);
    assert!(!id.is_flagged);
    penalize_abandonment(key(9), &cfg, &mut id).unwrap();
    assert_eq!(id.karma, 25);
    assert_eq!(id.abandonment_count, 3);
    assert!(id.is_flagged);
}

#[test]
fn penalty_floors_karma_at_zero() {
    let cfg = initialize_config(key(7), key(9));
    let mut id = user(key(1), "builder", Vec::new());
    id.karma = 10;
    penalize_abandonment(key(9), &cfg, &mut id).unwrap();
    assert_eq!(id.karma, 0);
    penalize_abandonment(key(9), &cfg, &mut id).unwrap();
    assert_eq!(id.karma, 0);
}

#[test]
fn flag_stays_set_after_more_operations() {
    let cfg = initialize_config(key(7), key(9));
    let mut id = user(key(1), "builder", vec![skill("rust", 5)]);
    for _ in 0..3 {
        penalize_abandonment(key(9), &cfg, &mut id).unwrap();
    }
    assert!(id.is_flagged);
    let rater = user(key(2), "designer", Vec::new());
    award_karma(key(2), &rater, 5, &mut id).unwrap();
    endorse_skill(key(2), b"rust".to_vec(), &mut id).unwrap();
    penalize_abandonment(key(9), &cfg, &mut id).unwrap();
    assert!(id.is_flagged);
}

#[test]
fn unauthorized_penalty_changes_nothing() {
    let cfg = initialize_config(key(7), key(9));
    let mut id = user(key(1), "builder", Vec::new());
    id.karma = 40;
    let r = penalize_abandonment(key(8), &cfg, &mut id);
    assert_eq!(r.err(), Some(RepError::Unauthorized));
    assert_eq!(id.karma, 40);
    assert_eq!(id.abandonment_count, 0);
    assert!(!id.is_flagged);
}

#[test]
fn penalty_counter_overflow_rejected_without_effect() {
    let cfg = initialize_config(key(7), key(9));
    let mut id = user(key(1), "builder", Vec::new());
    id.karma = 100;
    id.abandonment_count = u8::MAX;
    id.is_flagged = true;
    let r = penalize_abandonment(key(9), &cfg, &mut id);
    assert_eq!(r.err(), Some(RepError::Overflow));
    assert_eq!(id.karma, 100);
    assert_eq!(id.abandonment_count, u8::MAX);
}
