//! Process configuration as plain data. Loading it from files or the
//! environment, and resolving vault-held secrets, happens outside this
//! crate; by the time a `Settings` exists every field is a final value.

use vstd::prelude::*;

verus! {

use vstd::string::StringExecFns;
use crate::text::dec_digits;
use crate::text::u64_to_dec;

/// Where the service listens.
pub struct Service {
    pub host: String,
    pub port: u16,
}

/// Chain and signer parameters for the wallet backend.
pub struct Wallet {
    pub chain_id: u64,
    pub private: String,
    pub rpc: String,
    pub bundler_url: String,
}

/// Mail-delivery parameters. The key arrives already resolved: vault
/// indirection is the loader's concern.
pub struct Email {
    pub key: String,
    pub base_url: String,
    pub template_id: i64,
    pub send_limit: u64,
}

impl Email {
    /// Assemble mail settings from resolved values.
    pub fn new(key: String, base_url: String, template_id: i64, send_limit: u64) -> (r: Email)
        ensures
            r.key@ == key@,
            r.base_url@ == base_url@,
            r.template_id == template_id,
            r.send_limit == send_limit,
    {
        Email { key, base_url, template_id, send_limit }
    }

    /// The mail-service API key.
    pub fn key(&self) -> (r: String)
        ensures
            r@ == self.key@,
    {
        self.key.clone()
    }
}

/// Where the backing database lives.
pub struct Database {
    pub url: String,
}

/// Where the secret vault and its key file live.
pub struct Secrets {
    pub vault: String,
    pub key: String,
}

/// Token-signing material. The key arrives already resolved.
pub struct Jwt {
    pub key: String,
}

impl Jwt {
    /// Assemble token settings from a resolved key.
    pub fn new(key: String) -> (r: Jwt)
        ensures
            r.key@ == key@,
    {
        Jwt { key }
    }

    /// The token-signing key.
    pub fn key(&self) -> (r: String)
        ensures
            r@ == self.key@,
    {
        self.key.clone()
    }
}

/// Deployed contract addresses.
pub struct Contracts {
    pub wallet_factory: String,
    pub default_callback_handler: String,
    pub key_store_module: String,
    pub security_control_module: String,
    pub entry_point: String,
    pub paymaster: String,
    pub wallet_logic: String,
}

impl Contracts {
    /// Assemble the address book.
    pub fn new(
        wallet_factory: String,
        default_callback_handler: String,
        key_store_module: String,
        security_control_module: String,
        entry_point: String,
        paymaster: String,
        wallet_logic: String,
    ) -> (r: Contracts)
        ensures
            r.wallet_factory@ == wallet_factory@,
            r.default_callback_handler@ == default_callback_handler@,
            r.key_store_module@ == key_store_module@,
            r.security_control_module@ == security_control_module@,
            r.entry_point@ == entry_point@,
            r.paymaster@ == paymaster@,
            r.wallet_logic@ == wallet_logic@,
    {
        Contracts {
            wallet_factory,
            default_callback_handler,
            key_store_module,
            security_control_module,
            entry_point,
            paymaster,
            wallet_logic,
        }
    }

    pub fn wallet_factory(&self) -> (r: String)
        ensures
            r@ == self.wallet_factory@,
    {
        self.wallet_factory.clone()
    }

    pub fn default_callback_handler(&self) -> (r: String)
        ensures
            r@ == self.default_callback_handler@,
    {
        self.default_callback_handler.clone()
    }

    pub fn key_store_module(&self) -> (r: String)
        ensures
            r@ == self.key_store_module@,
    {
        self.key_store_module.clone()
    }

    pub fn security_control_module(&self) -> (r: String)
        ensures
            r@ == self.security_control_module@,
    {
        self.security_control_module.clone()
    }

    pub fn entry_point(&self) -> (r: String)
        ensures
            r@ == self.entry_point@,
    {
        self.entry_point.clone()
    }

    pub fn paymaster(&self) -> (r: String)
        ensures
            r@ == self.paymaster@,
    {
        self.paymaster.clone()
    }

    pub fn wallet_logic(&self) -> (r: String)
        ensures
            r@ == self.wallet_logic@,
    {
        self.wallet_logic.clone()
    }
}

/// Everything the process needs to run, assembled once at start.
pub struct Settings {
    pub service: Service,
    pub email: Email,
    pub database: Database,
    pub jwt: Jwt,
    pub secrets: Secrets,
    pub wallet: Wallet,
    pub contracts: Contracts,
}

impl Settings {
    /// The listen address as `host:port`.
    pub fn host_and_port(&self) -> (r: String)
        ensures
            r@ == self.service.host@ + seq![':'] + dec_digits(self.service.port as nat),
    {
        let mut s = self.service.host.clone();
        s.append(":");
        let port = u64_to_dec(self.service.port as u64);
        s.append(port.as_str());
        proof {
            reveal_strlit(":");
            assert(":"@ =~= seq![':']);
        }
        s
    }

    /// The database URL in the form the connection layer expects.
    pub fn db_connection_url(&self) -> (r: String)
        ensures
            r@ == "sqlite://"@ + self.database.url@,
    {
        let mut s = String::from_str("sqlite://");
        s.append(self.database.url.as_str());
        s
    }

    /// The funding wallet's private key.
    pub fn wallet_private_key(&self) -> (r: String)
        ensures
            r@ == self.wallet.private@,
    {
        self.wallet.private.clone()
    }

    /// The chain the wallets live on.
    pub fn chain_id(&self) -> (r: u64)
        ensures
            r == self.wallet.chain_id,
    {
        self.wallet.chain_id
    }

    /// The JSON-RPC endpoint.
    pub fn rpc(&self) -> (r: String)
        ensures
            r@ == self.wallet.rpc@,
    {
        self.wallet.rpc.clone()
    }

    /// The bundler endpoint.
    pub fn bundler(&self) -> (r: String)
        ensures
            r@ == self.wallet.bundler_url@,
    {
        self.wallet.bundler_url.clone()
    }
}

/// Which configuration profile to fall back to when none is named.
pub enum Env {
    Mumbai,
    Local,
    Prod,
}

impl Env {
    /// The profile name used to pick a configuration file.
    pub fn run_mode(&self) -> (r: &'static str)
        ensures
            r@ == match self {
                Env::Mumbai => "mumbai"@,
                Env::Local => "local"@,
                Env::Prod => "prod"@,
            },
    {
        match self {
            Env::Mumbai => "mumbai",
            Env::Local => "local",
            Env::Prod => "prod",
        }
    }
}

} // verus!
