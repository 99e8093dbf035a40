//! Signing-policy engine: threshold enforcement, exact active-set
//! replacement, and idempotent reads.

use clutch_guardians::api::{AccountGuardianParams, SigningStrategy};
use clutch_guardians::entities::GuardianStatus;
use clutch_guardians::errors::CoreError;
use clutch_guardians::guardians::list_account_guardians;
use clutch_guardians::settings::{
    get_guardian_settings, update_guardian_settings, validate_guardian_quantity,
    validate_guardians_for_account,
};
use clutch_guardians::store::Store;
use clutch_guardians::{account_repo, guardian_account_repo, guardian_repo, guardian_settings_repo};

fn seed_account(store: &mut Store, email: &str) -> u64 {
    account_repo::create(
        store,
        email.to_string(),
        String::new(),
        String::new(),
        String::new(),
        0,
    )
}

/// An account with three available guardian links; returns the account id
/// and the three link row ids.
fn seed_three_available(store: &mut Store) -> (u64, u64, u64, u64) {
    let x = seed_account(store, "user@example.com");
    let ga = guardian_repo::create(store, "g1@example.com".to_string(), None, None);
    let gb = guardian_repo::create(store, "g2@example.com".to_string(), None, None);
    let gc = guardian_repo::create(store, "g3@example.com".to_string(), None, None);
    let r1 = guardian_account_repo::create(store, ga, x, GuardianStatus::Available);
    let r2 = guardian_account_repo::create(store, gb, x, GuardianStatus::Available);
    let r3 = guardian_account_repo::create(store, gc, x, GuardianStatus::Available);
    (x, r1, r2, r3)
}

#[test]
fn thresholds_follow_the_fixed_mapping() {
    assert_eq!(SigningStrategy::get_signers_for(SigningStrategy::OneOfOne), 1);
    assert_eq!(SigningStrategy::get_signers_for(SigningStrategy::OneOfTwo), 2);
    assert_eq!(SigningStrategy::get_signers_for(SigningStrategy::TwoOfTwo), 2);
    assert_eq!(SigningStrategy::get_signers_for(SigningStrategy::OneOfThree), 3);
    assert_eq!(SigningStrategy::get_signers_for(SigningStrategy::TwoOfThree), 3);
    assert_eq!(
        SigningStrategy::get_signers_for(SigningStrategy::ThreeOfThree),
        3
    );
    assert_eq!(SigningStrategy::all().len(), 6);
}

#[test]
fn update_replaces_the_active_set_exactly() {
    // Scenario: three available rows; a two-guardian strategy names the
    // first two. (TwoOfThree cannot carry two ids: its threshold is 3.)
    let mut store = Store::new();
    let (x, r1, r2, r3) = seed_three_available(&mut store);
    let resp = update_guardian_settings(&mut store, x, SigningStrategy::TwoOfTwo, &vec![r1, r2])
        .unwrap();
    assert_eq!(resp.signers, SigningStrategy::TwoOfTwo);

    let got = get_guardian_settings(&store, x).unwrap();
    assert_eq!(got.signers, SigningStrategy::TwoOfTwo);
    let mut active_ids: Vec<u64> = got.active_guardians.iter().map(|g| g.id).collect();
    active_ids.sort();
    assert_eq!(active_ids, vec![r1, r2]);

    // The third row is still listable, as available.
    let all = list_account_guardians(
        &store,
        x,
        &AccountGuardianParams { guardian_id: None, status: None },
    )
    .unwrap();
    assert_eq!(all.len(), 3);
    let third = all.iter().find(|g| g.id == r3).unwrap();
    assert_eq!(third.status, GuardianStatus::Available);
}

#[test]
fn update_demotes_previously_active_rows() {
    let mut store = Store::new();
    let (x, r1, r2, _r3) = seed_three_available(&mut store);
    update_guardian_settings(&mut store, x, SigningStrategy::OneOfOne, &vec![r1]).unwrap();
    update_guardian_settings(&mut store, x, SigningStrategy::OneOfOne, &vec![r2]).unwrap();
    let got = get_guardian_settings(&store, x).unwrap();
    assert_eq!(got.active_guardians.len(), 1);
    assert_eq!(got.active_guardians[0].id, r2);
    let row1 = store.account_guardians.iter().find(|g| g.id == r1).unwrap();
    assert_eq!(row1.status, GuardianStatus::Available);
}

#[test]
fn wrong_guardian_count_is_a_policy_error_and_mutates_nothing() {
    // Scenario: OneOfTwo requires two guardians but one is proposed.
    let mut store = Store::new();
    let (x, r1, _r2, _r3) = seed_three_available(&mut store);
    let before_settings = store.guardian_settings.len();
    let r = update_guardian_settings(&mut store, x, SigningStrategy::OneOfTwo, &vec![r1]);
    assert!(matches!(r, Err(CoreError::InvalidPolicy)));
    assert_eq!(store.guardian_settings.len(), before_settings);
    assert!(store
        .account_guardians
        .iter()
        .all(|g| g.status == GuardianStatus::Available));
}

#[test]
fn foreign_row_ids_are_invalid_input_listing_the_offenders() {
    let mut store = Store::new();
    let (x, r1, _r2, _r3) = seed_three_available(&mut store);
    let stranger = seed_account(&mut store, "stranger@example.com");
    let gs = guardian_repo::create(&mut store, "gs@example.com".to_string(), None, None);
    let foreign = guardian_account_repo::create(&mut store, gs, stranger, GuardianStatus::Available);
    let r = update_guardian_settings(
        &mut store,
        x,
        SigningStrategy::OneOfTwo,
        &vec![r1, foreign],
    );
    match r {
        Err(CoreError::InvalidInput { offending }) => assert_eq!(offending, vec![foreign]),
        other => panic!("expected invalid input, got {:?}", other.is_ok()),
    }
    assert!(store
        .account_guardians
        .iter()
        .all(|g| g.status == GuardianStatus::Available));
}

#[test]
fn duplicate_row_ids_fail_validation() {
    let mut store = Store::new();
    let (x, r1, _r2, _r3) = seed_three_available(&mut store);
    let r = update_guardian_settings(&mut store, x, SigningStrategy::OneOfTwo, &vec![r1, r1]);
    assert!(matches!(r, Err(CoreError::InvalidInput { .. })));
}

#[test]
fn validators_work_standalone() {
    let mut store = Store::new();
    let (x, r1, r2, _r3) = seed_three_available(&mut store);
    assert!(validate_guardian_quantity(SigningStrategy::TwoOfTwo, &vec![r1, r2]).is_ok());
    assert!(validate_guardian_quantity(SigningStrategy::TwoOfTwo, &vec![r1]).is_err());
    assert!(validate_guardians_for_account(&store, &vec![r1, r2], x).is_ok());
    assert!(validate_guardians_for_account(&store, &vec![999], x).is_err());
}

#[test]
fn settings_row_appears_on_first_write() {
    let mut store = Store::new();
    let (x, r1, _r2, _r3) = seed_three_available(&mut store);
    assert!(matches!(
        get_guardian_settings(&store, x),
        Err(CoreError::NotFound)
    ));
    update_guardian_settings(&mut store, x, SigningStrategy::OneOfOne, &vec![r1]).unwrap();
    assert_eq!(store.guardian_settings.len(), 1);
    assert_eq!(store.guardian_settings[0].account_id, x);
}

#[test]
fn reading_settings_twice_returns_identical_active_sets() {
    let mut store = Store::new();
    let x = seed_account(&mut store, "user@example.com");
    let g = guardian_repo::create(&mut store, "guardian@example.com".to_string(), None, None);
    guardian_account_repo::create(&mut store, g, x, GuardianStatus::Active);
    guardian_settings_repo::create(&mut store, SigningStrategy::OneOfOne, x);

    let a = get_guardian_settings(&store, x).unwrap();
    let b = get_guardian_settings(&store, x).unwrap();
    assert_eq!(a.signers, b.signers);
    assert_eq!(a.active_guardians.len(), b.active_guardians.len());
    for (ga, gb) in a.active_guardians.iter().zip(b.active_guardians.iter()) {
        assert_eq!(ga.id, gb.id);
        assert_eq!(ga.email, gb.email);
        assert_eq!(ga.wallet_address, gb.wallet_address);
        assert_eq!(ga.status, gb.status);
    }
}

#[test]
fn settings_of_unknown_account_is_not_found() {
    let store = Store::new();
    assert!(matches!(
        get_guardian_settings(&store, 5),
        Err(CoreError::NotFound)
    ));
}

#[test]
fn active_rows_can_be_reproposed() {
    // The membership check does not constrain by current status.
    let mut store = Store::new();
    let (x, r1, r2, _r3) = seed_three_available(&mut store);
    update_guardian_settings(&mut store, x, SigningStrategy::OneOfOne, &vec![r1]).unwrap();
    let resp =
        update_guardian_settings(&mut store, x, SigningStrategy::TwoOfTwo, &vec![r1, r2]).unwrap();
    assert_eq!(resp.active_guardians.len(), 2);
}
