//! Verified core of a small file-vault backend: account registration and
//! login with signed, time-limited identity tokens; bearer-token request
//! authentication; and an ownership-scoped file-object store (upload, list,
//! download, visibility, delete).
//!
//! Persistence and transport (the document database, the filesystem, HTTP)
//! live outside this crate; the store here keeps the same records in memory
//! so that every rule about them is stated and proved.

pub mod config;
pub mod errors;
pub mod identity;
pub mod ids;
pub mod laws;
pub mod model;
pub mod password;
pub mod store;
pub mod text;
pub mod token;
pub mod validate;
