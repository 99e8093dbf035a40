//! Guardian registry: the accept-to-available path, listing with
//! filters, safe removal, and the guardian's view of its accounts.

use clutch_guardians::api::{AccountGuardianParams, GuardianAccountParams};
use clutch_guardians::entities::{GuardianStatus, NominationStatus};
use clutch_guardians::errors::CoreError;
use clutch_guardians::guardians::{
    list_account_guardians, list_accounts_for_guardian, remove_account_guardian,
};
use clutch_guardians::nominations::{create_nomination, update_nomination_status};
use clutch_guardians::store::Store;
use clutch_guardians::{account_repo, guardian_account_repo, guardian_repo};

fn seed_account(store: &mut Store, email: &str, wallet: &str, eoa: &str) -> u64 {
    account_repo::create(
        store,
        email.to_string(),
        wallet.to_string(),
        eoa.to_string(),
        String::new(),
        0,
    )
}

#[test]
fn accepting_a_nomination_creates_one_available_link() {
    // Scenario: guardian G accepts nomination N for nominator X.
    let mut store = Store::new();
    let x = seed_account(&mut store, "user@example.com", "", "");
    let g = seed_account(&mut store, "guardian@example.com", "", "");
    let nid = create_nomination(&mut store, x, &"guardian@example.com".to_string())
        .unwrap()
        .nomination_id;
    let resp = update_nomination_status(&mut store, g, nid, &"accepted".to_string()).unwrap();
    assert_eq!(resp.status, NominationStatus::Accepted);
    assert_eq!(store.nominations[0].status, NominationStatus::Accepted);
    assert_eq!(store.account_guardians.len(), 1);
    let link = store.account_guardians[0];
    assert_eq!(link.account_id, x);
    assert_eq!(link.guardian_id, store.guardians[0].id);
    assert_eq!(link.status, GuardianStatus::Available);

    let listed = list_account_guardians(
        &store,
        x,
        &AccountGuardianParams { guardian_id: None, status: None },
    )
    .unwrap();
    assert_eq!(listed.len(), 1);
    assert_eq!(listed[0].email, "guardian@example.com");
    assert_eq!(listed[0].wallet_address, "");
    assert_eq!(listed[0].status, GuardianStatus::Available);
}

fn seed_two_links(store: &mut Store) -> (u64, u64, u64) {
    let x = seed_account(store, "user@example.com", "", "");
    let g1 = guardian_repo::create(store, "guardian1@example.com".to_string(), None, None);
    let g2 = guardian_repo::create(store, "guardian2@example.com".to_string(), None, None);
    guardian_account_repo::create(store, g1, x, GuardianStatus::Available);
    guardian_account_repo::create(store, g2, x, GuardianStatus::Active);
    (x, g1, g2)
}

#[test]
fn listing_filters_by_status_case_insensitively() {
    let mut store = Store::new();
    let (x, _g1, g2) = seed_two_links(&mut store);
    let active = list_account_guardians(
        &store,
        x,
        &AccountGuardianParams { guardian_id: None, status: Some("active".to_string()) },
    )
    .unwrap();
    assert_eq!(active.len(), 1);
    assert_eq!(active[0].email, "guardian2@example.com");
    assert_eq!(active[0].status, GuardianStatus::Active);
    let by_guardian = list_account_guardians(
        &store,
        x,
        &AccountGuardianParams { guardian_id: Some(g2), status: None },
    )
    .unwrap();
    assert_eq!(by_guardian.len(), 1);
    assert_eq!(by_guardian[0].email, "guardian2@example.com");
    let unknown = list_account_guardians(
        &store,
        x,
        &AccountGuardianParams { guardian_id: None, status: Some("weird".to_string()) },
    )
    .unwrap();
    assert_eq!(unknown.len(), 0);
    assert!(matches!(
        list_account_guardians(
            &store,
            999,
            &AccountGuardianParams { guardian_id: None, status: None }
        ),
        Err(CoreError::NotFound)
    ));
}

#[test]
fn guardians_can_be_fetched_in_batch_by_id() {
    let mut store = Store::new();
    let (_x, g1, g2) = seed_two_links(&mut store);
    let both = guardian_repo::find_all_by_ids(&store, &vec![g1, g2, 999]);
    assert_eq!(both.len(), 2);
    assert_eq!(both[0].id, g1);
    assert_eq!(both[0].email, "guardian1@example.com");
    assert_eq!(both[1].id, g2);
    let none = guardian_repo::find_all_by_ids(&store, &vec![]);
    assert_eq!(none.len(), 0);
}

#[test]
fn removing_an_available_guardian_deletes_its_row() {
    let mut store = Store::new();
    let (x, g1, _g2) = seed_two_links(&mut store);
    let r = remove_account_guardian(&mut store, x, g1).unwrap();
    assert_eq!(r.guardian_id, g1);
    assert_eq!(store.account_guardians.len(), 1);
    assert_eq!(store.account_guardians[0].guardian_id, _g2);
}

#[test]
fn removing_an_active_guardian_is_refused_and_row_stays_active() {
    let mut store = Store::new();
    let (x, _g1, g2) = seed_two_links(&mut store);
    let r = remove_account_guardian(&mut store, x, g2);
    assert!(matches!(r, Err(CoreError::InvalidState)));
    assert_eq!(store.account_guardians.len(), 2);
    assert_eq!(store.account_guardians[1].status, GuardianStatus::Active);
}

#[test]
fn removing_an_unlinked_guardian_is_not_found() {
    let mut store = Store::new();
    let (x, _g1, _g2) = seed_two_links(&mut store);
    assert!(matches!(
        remove_account_guardian(&mut store, x, 424242),
        Err(CoreError::NotFound)
    ));
    assert!(matches!(
        remove_account_guardian(&mut store, 999, 1),
        Err(CoreError::NotFound)
    ));
    assert_eq!(store.account_guardians.len(), 2);
}

#[test]
fn guardian_sees_the_accounts_it_protects() {
    let mut store = Store::new();
    let x = seed_account(&mut store, "someone@example.com", "w123", "eoa123");
    let g = seed_account(&mut store, "guardian@example.com", "", "");
    let nid = create_nomination(&mut store, x, &"guardian@example.com".to_string())
        .unwrap()
        .nomination_id;
    update_nomination_status(&mut store, g, nid, &"accepted".to_string()).unwrap();

    let accounts =
        list_accounts_for_guardian(&store, g, &GuardianAccountParams { account_id: None });
    assert_eq!(accounts.len(), 1);
    assert_eq!(accounts[0].id, x);
    assert_eq!(accounts[0].email, "someone@example.com");
    assert_eq!(accounts[0].wallet_address, "w123");

    let filtered =
        list_accounts_for_guardian(&store, g, &GuardianAccountParams { account_id: Some(x) });
    assert_eq!(filtered.len(), 1);
    let none =
        list_accounts_for_guardian(&store, g, &GuardianAccountParams { account_id: Some(x + 7) });
    assert_eq!(none.len(), 0);
    // An account that guards nobody legitimately has zero results.
    let empty =
        list_accounts_for_guardian(&store, x, &GuardianAccountParams { account_id: None });
    assert_eq!(empty.len(), 0);
}
