//! Nomination workflow: creation branches, the status state machine, and
//! deletion rules.

use clutch_guardians::api::{GuardianNominationParams, NominationParams};
use clutch_guardians::entities::NominationStatus;
use clutch_guardians::errors::CoreError;
use clutch_guardians::nominations::{
    create_nomination, delete_nomination, list_nominations_for_account,
    list_nominations_for_guardian, update_nomination_status, validate_nomination_status,
};
use clutch_guardians::store::Store;
use clutch_guardians::{account_repo, guardian_repo, nomination_repo};

fn seed_account(store: &mut Store, email: &str) -> u64 {
    account_repo::create(
        store,
        email.to_string(),
        String::new(),
        String::new(),
        String::new(),
        0,
    )
}

#[test]
fn invalid_email_is_rejected() {
    let mut store = Store::new();
    let x = seed_account(&mut store, "user@example.com");
    let r = create_nomination(&mut store, x, &"a".to_string());
    assert!(matches!(r, Err(CoreError::InvalidInput { .. })));
    assert_eq!(store.nominations.len(), 0);
    assert_eq!(store.guardians.len(), 0);
}

#[test]
fn nominator_account_must_exist() {
    let mut store = Store::new();
    let r = create_nomination(&mut store, 77, &"guardian@example.com".to_string());
    assert!(matches!(r, Err(CoreError::NotFound)));
    assert_eq!(store.nominations.len(), 0);
}

#[test]
fn nomination_reuses_existing_guardian_row() {
    let mut store = Store::new();
    let x = seed_account(&mut store, "user@example.com");
    let gid = guardian_repo::create(&mut store, "guardian@example.com".to_string(), None, None);
    let r = create_nomination(&mut store, x, &"guardian@example.com".to_string()).unwrap();
    assert_eq!(store.guardians.len(), 1);
    assert_eq!(store.nominations.len(), 1);
    let nom = &store.nominations[0];
    assert_eq!(nom.id, r.nomination_id);
    assert_eq!(nom.guardian_id, gid);
    assert_eq!(nom.account_id, x);
    assert_eq!(nom.status, NominationStatus::Pending);
}

#[test]
fn nomination_links_guardian_to_registered_account() {
    let mut store = Store::new();
    let x = seed_account(&mut store, "user@example.com");
    let g_acct = seed_account(&mut store, "guardian@example.com");
    create_nomination(&mut store, x, &"guardian@example.com".to_string()).unwrap();
    assert_eq!(store.guardians.len(), 1);
    assert_eq!(store.guardians[0].email, "guardian@example.com");
    assert_eq!(store.guardians[0].account_id, Some(g_acct));
}

#[test]
fn nomination_for_unknown_email_creates_unlinked_guardian() {
    // Scenario: no prior guardian or account for the invited email.
    let mut store = Store::new();
    let x = seed_account(&mut store, "user@example.com");
    let r = create_nomination(&mut store, x, &"g@ex.com".to_string()).unwrap();
    assert_eq!(store.guardians.len(), 1);
    assert_eq!(store.guardians[0].email, "g@ex.com");
    assert_eq!(store.guardians[0].account_id, None);
    let nom = &store.nominations[0];
    assert_eq!(nom.id, r.nomination_id);
    assert_eq!(nom.account_id, x);
    assert_eq!(nom.status, NominationStatus::Pending);
}

fn seed_pending_nomination(store: &mut Store) -> (u64, u64, u64) {
    let x = seed_account(store, "user@example.com");
    let g = seed_account(store, "guardian@example.com");
    let resp = create_nomination(store, x, &"guardian@example.com".to_string()).unwrap();
    (x, g, resp.nomination_id)
}

#[test]
fn accept_then_reject_is_refused() {
    let mut store = Store::new();
    let (_x, g, nid) = seed_pending_nomination(&mut store);
    let r = update_nomination_status(&mut store, g, nid, &"accepted".to_string()).unwrap();
    assert_eq!(r.status, NominationStatus::Accepted);
    let r2 = update_nomination_status(&mut store, g, nid, &"rejected".to_string());
    assert!(matches!(r2, Err(CoreError::InvalidTransition)));
    assert_eq!(store.nominations[0].status, NominationStatus::Accepted);
}

#[test]
fn reject_then_accept_is_refused() {
    let mut store = Store::new();
    let (_x, g, nid) = seed_pending_nomination(&mut store);
    let r = update_nomination_status(&mut store, g, nid, &"rejected".to_string()).unwrap();
    assert_eq!(r.status, NominationStatus::Rejected);
    assert_eq!(store.account_guardians.len(), 0);
    let r2 = update_nomination_status(&mut store, g, nid, &"accepted".to_string());
    assert!(matches!(r2, Err(CoreError::InvalidTransition)));
    assert_eq!(store.nominations[0].status, NominationStatus::Rejected);
}

#[test]
fn terminal_status_can_be_rerequested() {
    let mut store = Store::new();
    let (_x, g, nid) = seed_pending_nomination(&mut store);
    update_nomination_status(&mut store, g, nid, &"accepted".to_string()).unwrap();
    let again = update_nomination_status(&mut store, g, nid, &"ACCEPTED".to_string()).unwrap();
    assert_eq!(again.status, NominationStatus::Accepted);
}

#[test]
fn pending_and_unknown_words_are_invalid_transitions() {
    let mut store = Store::new();
    let (_x, g, nid) = seed_pending_nomination(&mut store);
    let r = update_nomination_status(&mut store, g, nid, &"pending".to_string());
    assert!(matches!(r, Err(CoreError::InvalidTransition)));
    let r2 = update_nomination_status(&mut store, g, nid, &"invalid".to_string());
    assert!(matches!(r2, Err(CoreError::InvalidTransition)));
    assert_eq!(store.nominations[0].status, NominationStatus::Pending);
}

#[test]
fn unknown_nomination_or_guardian_is_not_found() {
    let mut store = Store::new();
    let (x, g, nid) = seed_pending_nomination(&mut store);
    // The nominator itself is nobody's guardian.
    let r = update_nomination_status(&mut store, x, nid, &"accepted".to_string());
    assert!(matches!(r, Err(CoreError::NotFound)));
    let r2 = update_nomination_status(&mut store, g, nid + 100, &"accepted".to_string());
    assert!(matches!(r2, Err(CoreError::NotFound)));
}

#[test]
fn validate_nomination_status_guard_table() {
    let pending = NominationStatus::Pending;
    let accepted = NominationStatus::Accepted;
    let rejected = NominationStatus::Rejected;
    assert!(validate_nomination_status(&"accepted".to_string(), pending).is_ok());
    assert!(validate_nomination_status(&"Rejected".to_string(), pending).is_ok());
    assert!(validate_nomination_status(&"ACCEPTED".to_string(), accepted).is_ok());
    assert!(validate_nomination_status(&"rejected".to_string(), rejected).is_ok());
    assert!(validate_nomination_status(&"accepted".to_string(), rejected).is_err());
    assert!(validate_nomination_status(&"rejected".to_string(), accepted).is_err());
    assert!(validate_nomination_status(&"pending".to_string(), pending).is_err());
    assert!(validate_nomination_status(&"nonsense".to_string(), pending).is_err());
}

#[test]
fn delete_pending_nomination_removes_the_row() {
    let mut store = Store::new();
    let (x, _g, nid) = seed_pending_nomination(&mut store);
    let r = delete_nomination(&mut store, x, nid).unwrap();
    assert_eq!(r.nomination_id, nid);
    assert_eq!(store.nominations.len(), 0);
}

#[test]
fn delete_resolved_nomination_is_refused_and_row_remains() {
    let mut store = Store::new();
    let (x, g, nid) = seed_pending_nomination(&mut store);
    update_nomination_status(&mut store, g, nid, &"accepted".to_string()).unwrap();
    let r = delete_nomination(&mut store, x, nid);
    assert!(matches!(r, Err(CoreError::InvalidState)));
    assert_eq!(store.nominations.len(), 1);
    assert_eq!(store.nominations[0].status, NominationStatus::Accepted);

    let nid2 = create_nomination(&mut store, x, &"other@example.com".to_string())
        .unwrap()
        .nomination_id;
    let gid2 = store.nominations[1].guardian_id;
    nomination_repo::update_status_by_guardian_id(&mut store, nid2, gid2, NominationStatus::Rejected);
    let r2 = delete_nomination(&mut store, x, nid2);
    assert!(matches!(r2, Err(CoreError::InvalidState)));
    assert_eq!(store.nominations.len(), 2);
}

#[test]
fn delete_of_foreign_or_missing_nomination_is_not_found() {
    let mut store = Store::new();
    let (x, _g, nid) = seed_pending_nomination(&mut store);
    let other = seed_account(&mut store, "stranger@example.com");
    assert!(matches!(
        delete_nomination(&mut store, other, nid),
        Err(CoreError::NotFound)
    ));
    assert!(matches!(
        delete_nomination(&mut store, x, nid + 50),
        Err(CoreError::NotFound)
    ));
    assert_eq!(store.nominations.len(), 1);
}

#[test]
fn account_listing_filters_nominations() {
    let mut store = Store::new();
    let x = seed_account(&mut store, "user@example.com");
    let n1 = create_nomination(&mut store, x, &"g1@example.com".to_string())
        .unwrap()
        .nomination_id;
    let _n2 = create_nomination(&mut store, x, &"g2@example.com".to_string())
        .unwrap()
        .nomination_id;
    let all = list_nominations_for_account(
        &store,
        x,
        &NominationParams { status: None, nomination_id: None, email: None },
    )
    .unwrap();
    assert_eq!(all.len(), 2);
    let by_id = list_nominations_for_account(
        &store,
        x,
        &NominationParams { status: None, nomination_id: Some(n1), email: None },
    )
    .unwrap();
    assert_eq!(by_id.len(), 1);
    assert_eq!(by_id[0].email, "g1@example.com");
    let by_status = list_nominations_for_account(
        &store,
        x,
        &NominationParams { status: Some("pending".to_string()), nomination_id: None, email: None },
    )
    .unwrap();
    assert_eq!(by_status.len(), 2);
    let by_unknown_status = list_nominations_for_account(
        &store,
        x,
        &NominationParams { status: Some("weird".to_string()), nomination_id: None, email: None },
    )
    .unwrap();
    assert_eq!(by_unknown_status.len(), 0);
    let by_email = list_nominations_for_account(
        &store,
        x,
        &NominationParams {
            status: None,
            nomination_id: None,
            email: Some("g2@example.com".to_string()),
        },
    )
    .unwrap();
    assert_eq!(by_email.len(), 1);
    assert_eq!(by_email[0].email, "g2@example.com");
}

#[test]
fn guardian_listing_sees_addressed_nominations() {
    let mut store = Store::new();
    let x = seed_account(&mut store, "user@example.com");
    let g = seed_account(&mut store, "guardian@example.com");
    let nid = create_nomination(&mut store, x, &"guardian@example.com".to_string())
        .unwrap()
        .nomination_id;
    let all = list_nominations_for_guardian(
        &store,
        g,
        &GuardianNominationParams { status: None, nomination_id: None },
    )
    .unwrap();
    assert_eq!(all.len(), 1);
    assert_eq!(all[0].id, nid);
    assert_eq!(all[0].account_id, x);
    // The nominator is nobody's guardian: empty, not an error.
    let none = list_nominations_for_guardian(
        &store,
        x,
        &GuardianNominationParams { status: None, nomination_id: None },
    )
    .unwrap();
    assert_eq!(none.len(), 0);
    let by_status = list_nominations_for_guardian(
        &store,
        g,
        &GuardianNominationParams { status: Some("PENDING".to_string()), nomination_id: None },
    )
    .unwrap();
    assert_eq!(by_status.len(), 1);
    let by_id = list_nominations_for_guardian(
        &store,
        g,
        &GuardianNominationParams { status: None, nomination_id: Some(nid) },
    )
    .unwrap();
    assert_eq!(by_id.len(), 1);
    assert_eq!(by_id[0].id, nid);
    let by_wrong_id = list_nominations_for_guardian(
        &store,
        g,
        &GuardianNominationParams { status: None, nomination_id: Some(nid + 5) },
    )
    .unwrap();
    assert_eq!(by_wrong_id.len(), 0);
}
