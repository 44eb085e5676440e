//! Data shared between the login flow, the cache and the command.
//!
//! JSON (de)serialisation of these types happens outside the library, on
//! copies that carry serde's derives.

use vstd::prelude::*;

verus! {

/// What a login needs: the account and the CAS service to log in to.
#[derive(Debug, Clone)]
pub struct LoginConfig {
    pub username: String,
    pub password: String,
    pub service: String,
}

/// The token cache as it is stored in `~/.hpc-login-cache.json`.
#[derive(Debug, Clone)]
pub struct TokenCache {
    pub username: String,
    pub token: String,
    /// Milliseconds since the Unix epoch after which the token is no longer used.
    pub expires_at: i64,
    /// Milliseconds since the Unix epoch at which the token was stored.
    pub created_at: i64,
}

/// How much the command prints.
#[derive(Debug, Clone, Copy)]
pub struct LoggerOptions {
    pub quiet: bool,
    pub verbose: bool,
    pub json: bool,
}

/// Reply of `getCurrentUserInfo.action`.
#[derive(Debug, Clone)]
pub struct TokenResponse {
    pub code: String,
    pub data: TokenData,
    pub msg: Option<String>,
}

/// The `data` object of a [`TokenResponse`]; `tokenList` in JSON.
#[derive(Debug, Clone)]
pub struct TokenData {
    pub token_list: Vec<TokenItem>,
}

/// One entry of `tokenList`.
#[derive(Debug, Clone)]
pub struct TokenItem {
    pub token: String,
}

/// Reply of the key download endpoint.
#[derive(Debug, Clone)]
pub struct DownloadKeyResponse {
    pub code: String,
    pub data: Option<String>,
    pub msg: Option<String>,
}

} // verus!
