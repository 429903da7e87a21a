//! Session-bound local encryption: a per-identity key derived from
//! authentication material, a session cell that gates the local store with
//! that key, and the timing rules that revoke access when the session expires.

pub mod auth;
pub mod claims;
pub mod db_api;
pub mod material;
pub mod monitor;
pub mod secret;
pub mod secure_db_access;
pub mod session;
pub mod storage;
pub mod vault;
