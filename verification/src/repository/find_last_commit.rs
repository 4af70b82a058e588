use vstd::prelude::*;
use crate::backend::{reference_peel_to_commit, reference_resolve, repository_head};
use crate::error::RepoError;
use crate::repository::{backend_error, Repository};

verus! {

/// The commit that HEAD leads to.
pub fn find_last_commit<'a>(
    repository: &'a Repository,
) -> (res: Result<git2::Commit<'a>, RepoError>)
    ensures
        res matches Err(e) ==> e is Backend,
{
    let head = match repository_head(repository) {
        Ok(head) => head,
        Err(e) => return Err(backend_error(&e)),
    };
    let direct = match reference_resolve(&head) {
        Ok(direct) => direct,
        Err(e) => return Err(backend_error(&e)),
    };
    match reference_peel_to_commit(&direct) {
        Ok(commit) => Ok(commit),
        Err(e) => Err(backend_error(&e)),
    }
}

} // verus!
