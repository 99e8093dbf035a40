//! Account registration, address updates, lookups, and the verification
//! code flow.

use clutch_guardians::accounts::{
    get_account_by_email, get_accounts, register_account, update_account, validate_code,
};
use clutch_guardians::api::AccountParams;
use clutch_guardians::errors::CoreError;
use clutch_guardians::store::Store;
use clutch_guardians::verification::{
    create_verification, store_verification, verify_email_send_limit,
};
use clutch_guardians::{account_repo, verification_repo};

#[test]
fn registration_needs_a_live_code() {
    let mut store = Store::new();
    store_verification(
        &mut store,
        &"someone@example.com".to_string(),
        &"123456".to_string(),
        1000,
    );
    let id = register_account(
        &mut store,
        &"someone@example.com".to_string(),
        &"123456".to_string(),
        2000,
        "0xwallet".to_string(),
        "0xeoa".to_string(),
        "key".to_string(),
    )
    .unwrap();
    assert_eq!(store.accounts.len(), 1);
    assert_eq!(store.accounts[0].id, id);
    assert_eq!(store.accounts[0].email, "someone@example.com");
    assert_eq!(store.accounts[0].updated_at, 2000);
}

#[test]
fn registration_rejects_bad_email_duplicate_and_bad_code() {
    let mut store = Store::new();
    assert!(matches!(
        register_account(
            &mut store,
            &"a".to_string(),
            &"123456".to_string(),
            0,
            String::new(),
            String::new(),
            String::new(),
        ),
        Err(CoreError::InvalidInput { .. })
    ));
    // No verification stored at all.
    assert!(matches!(
        register_account(
            &mut store,
            &"someone@example.com".to_string(),
            &"123456".to_string(),
            0,
            String::new(),
            String::new(),
            String::new(),
        ),
        Err(CoreError::NotFound)
    ));
    // An expired code is refused.
    store_verification(
        &mut store,
        &"someone@example.com".to_string(),
        &"123456".to_string(),
        1000,
    );
    assert!(matches!(
        register_account(
            &mut store,
            &"someone@example.com".to_string(),
            &"123456".to_string(),
            100000,
            String::new(),
            String::new(),
            String::new(),
        ),
        Err(CoreError::InvalidState)
    ));
    // A fresh code works once; a second registration finds the email taken.
    register_account(
        &mut store,
        &"someone@example.com".to_string(),
        &"123456".to_string(),
        2000,
        String::new(),
        String::new(),
        String::new(),
    )
    .unwrap();
    assert!(matches!(
        register_account(
            &mut store,
            &"someone@example.com".to_string(),
            &"123456".to_string(),
            2000,
            String::new(),
            String::new(),
            String::new(),
        ),
        Err(CoreError::InvalidState)
    ));
}

#[test]
fn validate_code_checks_expiry_strictly() {
    let mut store = Store::new();
    store_verification(
        &mut store,
        &"a@me.com".to_string(),
        &"000111".to_string(),
        1000,
    );
    // Expiry is at 1000 + 60000; that instant itself is still good.
    assert!(validate_code(&store, &"a@me.com".to_string(), &"000111".to_string(), 61000).is_ok());
    assert!(matches!(
        validate_code(&store, &"a@me.com".to_string(), &"000111".to_string(), 61001),
        Err(CoreError::InvalidState)
    ));
    assert!(matches!(
        validate_code(&store, &"a@me.com".to_string(), &"999999".to_string(), 0),
        Err(CoreError::NotFound)
    ));
}

#[test]
fn update_account_overwrites_addresses() {
    let mut store = Store::new();
    let id = account_repo::create(
        &mut store,
        "first@example.com".to_string(),
        "old_wallet".to_string(),
        "old_eoa".to_string(),
        String::new(),
        0,
    );
    let r = update_account(
        &mut store,
        id,
        &"first@example.com".to_string(),
        Some("123".to_string()),
        None,
    )
    .unwrap();
    assert!(r.updated);
    assert_eq!(store.accounts[0].wallet_address, "123");
    assert_eq!(store.accounts[0].eoa_address, "");
    let r2 = update_account(&mut store, id, &"first@example.com".to_string(), None, None).unwrap();
    assert!(!r2.updated);
    assert!(matches!(
        update_account(&mut store, id + 9, &"first@example.com".to_string(), None, None),
        Err(CoreError::NotFound)
    ));
    assert!(matches!(
        update_account(&mut store, id, &"a".to_string(), None, None),
        Err(CoreError::InvalidInput { .. })
    ));
}

#[test]
fn account_lookups_filter_as_asked() {
    let mut store = Store::new();
    account_repo::create(
        &mut store,
        "first@example.com".to_string(),
        "123".to_string(),
        "eoa1".to_string(),
        String::new(),
        0,
    );
    account_repo::create(
        &mut store,
        "another@me.com".to_string(),
        "another_wallet".to_string(),
        "another_eoa".to_string(),
        String::new(),
        0,
    );
    let all = get_accounts(
        &store,
        &AccountParams { wallet_address: None, eoa_address: None, email: None },
    );
    assert_eq!(all.len(), 2);
    let by_wallet = get_accounts(
        &store,
        &AccountParams {
            wallet_address: Some("123".to_string()),
            eoa_address: None,
            email: None,
        },
    );
    assert_eq!(by_wallet.len(), 1);
    assert_eq!(by_wallet[0].email, "first@example.com");
    let by_eoa = get_accounts(
        &store,
        &AccountParams {
            wallet_address: None,
            eoa_address: Some("another_eoa".to_string()),
            email: None,
        },
    );
    assert_eq!(by_eoa.len(), 1);
    assert_eq!(by_eoa[0].email, "another@me.com");
    let by_email = get_accounts(
        &store,
        &AccountParams {
            wallet_address: None,
            eoa_address: None,
            email: Some("first@example.com".to_string()),
        },
    );
    assert_eq!(by_email.len(), 1);
    assert_eq!(by_email[0].wallet_address, "123");

    let by_wallet_one = account_repo::find_by_wallet_address(&store, &"123".to_string());
    assert_eq!(by_wallet_one.unwrap().email, "first@example.com");
    assert!(account_repo::find_by_wallet_address(&store, &"none".to_string()).is_none());
    assert!(account_repo::find_by_id(&store, store.accounts[0].id).is_some());

    let one = get_account_by_email(&store, &"another@me.com".to_string()).unwrap();
    assert_eq!(one.wallet_address, "another_wallet");
    assert!(matches!(
        get_account_by_email(&store, &"nobody@me.com".to_string()),
        Err(CoreError::NotFound)
    ));
    assert!(matches!(
        get_account_by_email(&store, &"a".to_string()),
        Err(CoreError::InvalidInput { .. })
    ));
}

#[test]
fn verification_codes_are_issued_up_to_the_limit() {
    let mut store = Store::new();
    let email = "exceeds@example.com".to_string();
    let code = create_verification(&mut store, &email, 0, 1).unwrap();
    assert_eq!(code.len(), 6);
    assert!(code.chars().all(|c| c.is_ascii_digit()));
    assert_eq!(store.verifications.len(), 1);
    assert_eq!(store.verifications[0].code, code);
    assert_eq!(store.verifications[0].expires_at, 60000);

    create_verification(&mut store, &email, 0, 1).unwrap();
    // Two codes already recorded: the limit of one is now exceeded.
    assert!(matches!(
        create_verification(&mut store, &email, 0, 1),
        Err(CoreError::InvalidState)
    ));
    assert!(verify_email_send_limit(&store, &email, 2).is_ok());
    assert!(verify_email_send_limit(&store, &email, 1).is_err());
    assert_eq!(verification_repo::count_by_email(&store, &email), 2);
    assert_eq!(verification_repo::find_all_by_email(&store, &email).len(), 2);
    assert!(matches!(
        create_verification(&mut store, &"a".to_string(), 0, 5),
        Err(CoreError::InvalidInput { .. })
    ));
}
