//! The failures that the library reports, and their messages.

use vstd::prelude::*;
use crate::text::{decimal, push_decimal, push_str, string_of};

verus! {

/// A failure of the login, key download or credential handling.
#[derive(Debug, Clone)]
pub enum GhpcError {
    /// The login page holds no `execution` field.
    ExecutionToken,
    /// The login form was answered with neither a redirect nor a page.
    LoginStatus(u16),
    /// The user info endpoint gave no token.
    Token,
    /// The key endpoint gave no key; its non-empty `msg`, if any.
    PrivateKey(Option<String>),
    /// `--password-stdin` was given without a username.
    UsernameRequired,
    /// Standard input held no password.
    EmptyStdinPassword,
    /// The hidden password prompt failed, with the reason.
    PasswordPrompt(String),
    /// The RSA public key could not be read, with the reason.
    PublicKey(String),
    /// The password could not be encrypted, with the reason.
    Encryption(String),
    /// There is no home directory to write the key to.
    HomeDirectory,
}

/// The message of a failure, as the command prints it.
pub open spec fn error_text(e: GhpcError) -> Seq<char> {
    match e {
        GhpcError::ExecutionToken => "Failed to get execution token"@,
        GhpcError::LoginStatus(s) => "Login failed, status: "@ + decimal(s as nat),
        GhpcError::Token => "Failed to get token"@,
        GhpcError::PrivateKey(m) => match m {
            Some(msg) => "Failed to get private key: "@ + msg@,
            None => "Failed to get private key"@,
        },
        GhpcError::UsernameRequired =>
            "Username is required when using --password-stdin. Pass --username or set HPC_USERNAME"@,
        GhpcError::EmptyStdinPassword => "Password read from stdin was empty"@,
        GhpcError::PasswordPrompt(r) => "Failed to read password: "@ + r@,
        GhpcError::PublicKey(r) => r@,
        GhpcError::Encryption(r) => r@,
        GhpcError::HomeDirectory => "Failed to determine home directory"@,
    }
}

impl GhpcError {
    /// The message of the failure.
    pub fn message(&self) -> (s: String)
        ensures
            s@ == error_text(*self),
    {
        match self {
            GhpcError::ExecutionToken => "Failed to get execution token".to_owned(),
            GhpcError::LoginStatus(s) => {
                let mut v: Vec<char> = Vec::new();
                push_str(&mut v, "Login failed, status: ");
                push_decimal(&mut v, *s as u128);
                string_of(&v)
            },
            GhpcError::Token => "Failed to get token".to_owned(),
            GhpcError::PrivateKey(m) => match m {
                Some(msg) => {
                    let mut v: Vec<char> = Vec::new();
                    push_str(&mut v, "Failed to get private key: ");
                    push_str(&mut v, msg.as_str());
                    string_of(&v)
                },
                None => "Failed to get private key".to_owned(),
            },
            GhpcError::UsernameRequired =>
                "Username is required when using --password-stdin. Pass --username or set HPC_USERNAME".to_owned(),
            GhpcError::EmptyStdinPassword => "Password read from stdin was empty".to_owned(),
            GhpcError::PasswordPrompt(r) => {
                let mut v: Vec<char> = Vec::new();
                push_str(&mut v, "Failed to read password: ");
                push_str(&mut v, r.as_str());
                string_of(&v)
            },
            GhpcError::PublicKey(r) => r.clone(),
            GhpcError::Encryption(r) => r.clone(),
            GhpcError::HomeDirectory => "Failed to determine home directory".to_owned(),
        }
    }
}

} // verus!
