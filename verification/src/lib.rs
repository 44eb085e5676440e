//! Verified core of `ghpc`, a command that logs in to the CUGB HPC portal
//! through CAS single sign-on, downloads the user's SSH private key, and
//! reuses a short-lived token cache when it still works.
//!
//! The library decides and computes; the program around it sends the
//! requests, touches the files and prints. The login and the download flow
//! are state machines that say what to send next and take back what came.

pub mod text;
pub mod scan;
pub mod types;
pub mod errors;
pub mod http;
pub mod session;
pub mod login;
pub mod crypto;
pub mod cache;
pub mod flow;
pub mod cli;
pub mod logger;
pub mod paths;
pub mod report;
