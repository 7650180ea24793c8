//! Process-wide configuration, loaded once at startup and read-only after.

use std::sync::Arc;
use vstd::prelude::*;

pub mod crypto;

use crypto::CryptoService;

verus! {

/// What the process is configured with.
#[derive(Debug, Clone, PartialEq, Eq)]
pub struct Config {
    pub host: String,
    pub port: i32,
    pub database_url: String,
    pub secret_key: String,
    pub jwt_secret: String,
}

impl Config {
    /// The crypto service that works with this configuration's two secrets.
    pub fn hashing(&self) -> (r: CryptoService)
        ensures
            r.key@ == self.secret_key@,
            r.jwt_secret@ == self.jwt_secret@,
    {
        CryptoService {
            key: Arc::new(self.secret_key.clone()),
            jwt_secret: Arc::new(self.jwt_secret.clone()),
        }
    }
}

} // verus!
