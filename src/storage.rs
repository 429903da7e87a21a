//! Where the store of an identity lives, and how opening it can fail.

use vstd::prelude::*;

verus! {

/// Errors of opening the local store.
#[derive(Debug, Clone, Copy, PartialEq, Eq, Structural)]
pub enum StorageError {
    /// No store path can be formed for the identity.
    InvalidDbPath,
    /// The directory of the store could not be created.
    DirectoryError,
    /// The store file could not be opened or created.
    OpenError,
    /// The store refused the key: it was written under another key, or it is
    /// damaged.
    KeyRejected,
    /// The schema could not be set up.
    SchemaError,
}

/// The message of a storage error.
pub open spec fn storage_error_message(e: StorageError) -> Seq<char> {
    match e {
        StorageError::InvalidDbPath => "No database path can be formed for this user."@,
        StorageError::DirectoryError => "The database directory could not be created."@,
        StorageError::OpenError => "The database file could not be opened."@,
        StorageError::KeyRejected => "The database rejected the key. Please sign in again."@,
        StorageError::SchemaError => "The database schema could not be set up."@,
    }
}

impl StorageError {
    /// A human-readable message for the error. It never holds key or token
    /// material.
    pub fn message(&self) -> (r: &'static str)
        ensures
            r@ == storage_error_message(*self),
    {
        match self {
            StorageError::InvalidDbPath => "No database path can be formed for this user.",
            StorageError::DirectoryError => "The database directory could not be created.",
            StorageError::OpenError => "The database file could not be opened.",
            StorageError::KeyRejected => "The database rejected the key. Please sign in again.",
            StorageError::SchemaError => "The database schema could not be set up.",
        }
    }
}

impl StorageError {
    /// Whether the same call may succeed once the environment is fixed. A
    /// rejected key never does: it calls for a fresh sign-in instead.
    pub fn is_retryable(&self) -> (r: bool)
        ensures
            r == !(*self is KeyRejected),
    {
        match self {
            StorageError::KeyRejected => false,
            _ => true,
        }
    }
}

/// The directory of the stores, under the application data directory.
pub open spec fn storage_dir() -> Seq<char> {
    "buffmod/storage/"@
}

/// The path of the store of `user_id`, under the application data directory.
pub open spec fn database_path_of(user_id: Seq<char>) -> Seq<char> {
    storage_dir() + user_id + ".db"@
}

/// The path of the store of `user_id`, relative to the application data
/// directory; the empty identity has none.
pub fn database_relative_path(user_id: &str) -> (r: Result<String, StorageError>)
    ensures
        match r {
            Ok(p) => user_id@.len() > 0 && p@ == database_path_of(user_id@),
            Err(e) => user_id@.len() == 0 && e == StorageError::InvalidDbPath,
        },
{
    if user_id.is_empty() {
        return Err(StorageError::InvalidDbPath);
    }
    let mut path = "buffmod/storage/".to_owned();
    path.append(user_id);
    path.append(".db");
    Ok(path)
}

} // verus!
