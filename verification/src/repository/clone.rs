use vstd::prelude::*;
use crate::backend::repository_clone;
use crate::error::RepoError;
use crate::origin::Origin;
use crate::repository::{backend_error, Repository};

verus! {

/// The user name that a clone answers requests for credentials with: the
/// origin's token, or the empty name where it has none.
pub open spec fn spec_clone_username(token: Option<Seq<char>>) -> Seq<char> {
    match token {
        Some(t) => t,
        None => Seq::empty(),
    }
}

pub fn clone_username(remote: &Origin) -> (res: String)
    ensures
        res@ == spec_clone_username(remote@.token),
{
    match &remote.token {
        Some(token) => token.clone(),
        None => String::new(),
    }
}

/// Clones the repository at `remote` into the directory `dataset_dir`.
pub fn clone(dataset_dir: &str, remote: &Origin) -> (res: Result<Repository, RepoError>)
    ensures
        res matches Err(e) ==> e is Backend,
{
    let username = clone_username(remote);
    match repository_clone(remote.url.as_str(), dataset_dir, username.as_str()) {
        Ok(repository) => Ok(repository),
        Err(e) => Err(backend_error(&e)),
    }
}

} // verus!
