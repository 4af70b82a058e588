use vstd::prelude::*;
use crate::backend::repository_open;
use crate::error::RepoError;
use crate::repository::{backend_error, Repository};

verus! {

/// Opens the repository at `path`.
pub fn open(path: &str) -> (res: Result<Repository, RepoError>)
    ensures
        res matches Err(e) ==> e is Backend,
{
    match repository_open(path) {
        Ok(repository) => Ok(repository),
        Err(e) => Err(backend_error(&e)),
    }
}

} // verus!
