//! Account registration and credential checking over a two-table user store.
//!
//! The crate keeps credential records (accounts) and display records
//! (profiles) joined one to one, hashes passwords with Argon2 under a fresh
//! random salt, and answers logins with the owning profile when the stored
//! hash verifies.
pub mod error;
pub mod hasher;
pub mod models;
pub mod flow;
pub mod store;
pub mod laws;
