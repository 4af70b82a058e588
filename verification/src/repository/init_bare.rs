use vstd::prelude::*;
use crate::backend::repository_init_bare;
use crate::error::RepoError;
use crate::repository::{backend_error, Repository};

verus! {

/// Creates a repository without a working tree at `path`.
pub fn init_bare(path: &str) -> (res: Result<Repository, RepoError>)
    ensures
        res matches Err(e) ==> e is Backend,
{
    match repository_init_bare(path) {
        Ok(repository) => Ok(repository),
        Err(e) => Err(backend_error(&e)),
    }
}

} // verus!
