use vstd::prelude::*;
use crate::backend::repository_init;
use crate::error::RepoError;
use crate::repository::{backend_error, Repository};

verus! {

/// Creates a repository with a working tree at `path`.
pub fn init(path: &str) -> (res: Result<Repository, RepoError>)
    ensures
        res matches Err(e) ==> e is Backend,
{
    match repository_init(path) {
        Ok(repository) => Ok(repository),
        Err(e) => Err(backend_error(&e)),
    }
}

} // verus!
