//! The overview of tracked repositories and their labels.
use vstd::prelude::*;

use crate::repository::RepositoryServiceError;
use crate::storage::RepoEntity;

verus! {

/// One repository of the overview with its tracked labels; labels that
/// could not be read are shown as none.
pub fn overview_entry(repo: RepoEntity, labels: Result<Vec<String>, RepositoryServiceError>) -> (res: (
    RepoEntity,
    Vec<String>,
))
    ensures
        res.0 == repo,
        (match labels {
            Ok(l) => res.1 == l,
            Err(_) => res.1@.len() == 0,
        }),
{
    match labels {
        Ok(l) => (repo, l),
        Err(_) => (repo, Vec::new()),
    }
}

} // verus!
