//! Runtime configuration, as plain values.
//!
//! Durations are seconds; reading these from the environment is the
//! surrounding program's business, the core only consumes them.

use vstd::prelude::*;

verus! {

/// Everything the backend is configured with. The core reads the token
/// secrets, the token lifetimes and the cache's default time-to-live; the
/// pool and listener settings ride along for the program around it.
pub struct Config {
    pub port: u16,
    pub database_url: String,
    pub cache_url: String,
    pub idle_timeout: i64,
    pub acquire_timeout: i64,
    pub max_connections: u32,
    pub min_connections: u32,
    pub access_token_key_secret: String,
    pub access_token_key_ttl: i64,
    pub refresh_token_key_secret: String,
    pub refresh_token_key_ttl: i64,
    pub redis_default_ttl: i64,
}

} // verus!
