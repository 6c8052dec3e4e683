//! The configuration shape of the embedding service. The core never reads
//! configuration itself; the surrounding service fills these in and decides
//! what to do with them.

use vstd::prelude::*;

verus! {

/// The service's whole configuration.
#[derive(Clone, PartialEq, Debug)]
pub struct Settings {
    pub env_name: String,
    pub web: WebSettings,
    pub auth: AuthSettings,
    pub datasource: Datasources,
}

#[derive(Clone, PartialEq, Debug)]
pub struct WebSettings {
    pub port: u16,
}

#[derive(Clone, PartialEq, Debug)]
pub struct AuthSettings {
    pub server_secret: String,
    pub password_salt: String,
    pub google: AuthProviderSettings,
}

#[derive(Clone, PartialEq, Debug)]
pub struct AuthProviderSettings {
    pub token_endpoint: String,
    pub client_id: String,
    pub client_secret: String,
}

#[derive(Clone, PartialEq, Debug)]
pub struct Datasources {
    pub sql_url: String,
    pub redis_url: String,
    pub run_migrations: bool,
}

} // verus!
