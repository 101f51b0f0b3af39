//! Credential-helper logic for a locally running password manager.
//!
//! The helper answers git's credential requests from the entries of a password manager that
//! runs on the same machine. This library holds its rules: the credential messages, the
//! check of the invoking process, the wait for a locked database, the choice of an entry, the
//! decision what to store, the configuration with its encryption profiles, and the session
//! with the password manager.

pub mod auth;
pub mod commands;
pub mod config;
pub mod crypto;
pub mod error;
pub mod filters;
pub mod git;
pub mod logins;
pub mod session;
pub mod store;
pub mod text;
pub mod unlock;
