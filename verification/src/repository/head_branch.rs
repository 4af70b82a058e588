use vstd::prelude::*;
use crate::backend::{branch_wrap, reference_is_branch, repository_head};
use crate::error::RepoError;
use crate::repository::{backend_error, Repository};

verus! {

/// The branch under HEAD. Fails where HEAD leads to no commit or is on no
/// branch.
pub fn head_branch<'a>(repository: &'a Repository) -> (res: Result<git2::Branch<'a>, RepoError>)
    ensures
        res matches Err(e) ==> e is Backend || e is DetachedHead,
{
    let head = match repository_head(repository) {
        Ok(head) => head,
        Err(e) => return Err(backend_error(&e)),
    };
    if reference_is_branch(&head) {
        Ok(branch_wrap(head))
    } else {
        Err(RepoError::DetachedHead)
    }
}

} // verus!
