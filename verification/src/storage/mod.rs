//! Stored repositories and the errors of the storage layer.
pub mod memory_storage;
pub mod repo_entity;
pub mod repository;
pub mod sqlite;

use vstd::prelude::*;

pub use repo_entity::{RepoEntity, RepoEntityError};
use repo_entity::{repo_error_text};
pub use repository::Repository;

verus! {

/// Errors of the storage layer.
#[derive(Debug, Clone, PartialEq, Eq)]
pub enum StorageError {
    /// The database reported an error.
    DbError(String),
    /// A stored repository could not be read back.
    DataIntegrityError(String, RepoEntityError),
}

/// The text of a storage error.
pub open spec fn storage_error_text(e: StorageError) -> Seq<char> {
    match e {
        StorageError::DbError(m) => "Database error: "@ + m@,
        StorageError::DataIntegrityError(r, err) => "Data integrity error: Stored repository '"@
            + r@ + "' is invalid: "@ + repo_error_text(err@),
    }
}

impl StorageError {
    /// The error's text.
    pub fn message(&self) -> (res: String)
        ensures
            res@ == storage_error_text(*self),
    {
        match self {
            StorageError::DbError(m) => {
                let mut s = String::from_str("Database error: ");
                s.append(m.as_str());
                s
            },
            StorageError::DataIntegrityError(r, err) => {
                let mut s = String::from_str("Data integrity error: Stored repository '");
                s.append(r.as_str());
                s.append("' is invalid: ");
                let inner = err.message();
                s.append(inner.as_str());
                s
            },
        }
    }
}

} // verus!
