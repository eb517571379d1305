//! Settings of the services around the ledger.

use vstd::prelude::*;

verus! {

pub struct DatabaseConfig {
    pub url: String,
    pub max_connections: u32,
}

pub struct ServerConfig {
    pub host: String,
    pub port: u16,
}

pub struct JwtConfig {
    pub secret: String,
    pub expiration: i64,
}

pub struct StripeConfig {
    pub secret_key: String,
    pub webhook_secret: String,
}

pub struct RazorpayConfig {
    pub key_id: String,
    pub key_secret: String,
}

pub struct EmailConfig {
    pub smtp_host: String,
    pub smtp_port: u16,
    pub smtp_user: String,
    pub smtp_password: String,
}

} // verus!
