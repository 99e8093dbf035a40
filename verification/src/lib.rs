//! Social-recovery core for a custody-wallet service: accounts nominate
//! guardians, guardians accept or reject, and an M-of-N signing policy
//! selects which accepted guardians are actively required for recovery.
//!
//! All state lives in an in-memory [`store::Store`]; transport, persistence
//! and token handling sit outside this crate and talk to it through plain
//! values.

pub mod account_repo;
pub mod accounts;
pub mod api;
pub mod auth;
pub mod codes;
pub mod config;
pub mod email;
pub mod entities;
pub mod errors;
pub mod guardian_account_repo;
pub mod guardian_repo;
pub mod guardian_settings_repo;
pub mod guardians;
pub mod hexstr;
pub mod laws;
pub mod nomination_repo;
pub mod nominations;
pub mod settings;
pub mod store;
pub mod text;
pub mod verification;
pub mod verification_repo;
