//! Codes, hex rendering, configuration getters, and token claims.

use clutch_guardians::auth::{validate_jwt_claims, Claims, TOKEN_LIFETIME_MS};
use clutch_guardians::codes::generate_code;
use clutch_guardians::config::{
    Contracts, Database, Email, Env, Jwt, Secrets, Service, Settings, Wallet,
};
use clutch_guardians::errors::CoreError;
use clutch_guardians::hexstr::convert_to_hex;

#[test]
fn generate_code_test() {
    let code = generate_code();
    assert_eq!(code.len(), 6);
}

#[test]
fn generated_codes_are_decimal() {
    for _ in 0..20 {
        let code = generate_code();
        assert_eq!(code.len(), 6);
        assert!(code.chars().all(|c| c.is_ascii_digit()));
    }
}

#[test]
fn convert_to_hex_prefixes_lowercase_pairs() {
    assert_eq!(convert_to_hex(&vec![]), "0x");
    assert_eq!(convert_to_hex(&vec![0x12, 0xab, 0x00, 0xff]), "0x12ab00ff");
    assert_eq!(convert_to_hex(&vec![1, 2, 3, 15, 16]), "0x0102030f10");
}

fn sample_settings() -> Settings {
    Settings {
        service: Service { host: "127.0.0.1".to_string(), port: 8080 },
        email: Email::new("mailkey".to_string(), "https://mail.example".to_string(), 7, 3),
        database: Database { url: "data/app.db".to_string() },
        jwt: Jwt::new("jwtkey".to_string()),
        secrets: Secrets { vault: "vault.json".to_string(), key: "secrets.key".to_string() },
        wallet: Wallet {
            chain_id: 1337,
            private: "0xabc".to_string(),
            rpc: "http://localhost:8545".to_string(),
            bundler_url: "http://localhost:3000/rpc".to_string(),
        },
        contracts: Contracts::new(
            "f".to_string(),
            "h".to_string(),
            "k".to_string(),
            "s".to_string(),
            "e".to_string(),
            "p".to_string(),
            "l".to_string(),
        ),
    }
}

#[test]
fn settings_getters_render_expected_values() {
    let s = sample_settings();
    assert_eq!(s.host_and_port(), "127.0.0.1:8080");
    assert_eq!(s.db_connection_url(), "sqlite://data/app.db");
    assert_eq!(s.wallet_private_key(), "0xabc");
    assert_eq!(s.chain_id(), 1337);
    assert_eq!(s.rpc(), "http://localhost:8545");
    assert_eq!(s.bundler(), "http://localhost:3000/rpc");
    assert_eq!(s.email.key(), "mailkey");
    assert_eq!(s.jwt.key(), "jwtkey");
    assert_eq!(s.contracts.wallet_factory(), "f");
    assert_eq!(s.contracts.default_callback_handler(), "h");
    assert_eq!(s.contracts.key_store_module(), "k");
    assert_eq!(s.contracts.security_control_module(), "s");
    assert_eq!(s.contracts.entry_point(), "e");
    assert_eq!(s.contracts.paymaster(), "p");
    assert_eq!(s.contracts.wallet_logic(), "l");
    assert_eq!(Env::Mumbai.run_mode(), "mumbai");
    assert_eq!(Env::Local.run_mode(), "local");
    assert_eq!(Env::Prod.run_mode(), "prod");
}

#[test]
fn claims_carry_a_thirty_day_expiry() {
    let c = Claims::for_account("acct-1".to_string(), 1000);
    assert_eq!(c.sub, "acct-1");
    assert_eq!(c.company, "Clutch");
    assert_eq!(c.exp, 1000 + TOKEN_LIFETIME_MS);
    assert!(validate_jwt_claims(&c, c.exp).is_ok());
    assert!(matches!(
        validate_jwt_claims(&c, c.exp + 1),
        Err(CoreError::AuthError)
    ));
}

#[test]
fn error_messages_are_generic() {
    assert_eq!(CoreError::NotFound.message(), "not found");
    assert_eq!(
        CoreError::InvalidInput { offending: vec![3] }.message(),
        "invalid input"
    );
    assert_eq!(CoreError::InvalidState.message(), "invalid state");
    assert_eq!(CoreError::InvalidTransition.message(), "invalid transition");
    assert_eq!(CoreError::InvalidPolicy.message(), "invalid policy");
    assert_eq!(CoreError::AuthError.message(), "authentication failed");
}
