use vstd::prelude::*;
use crate::backend::has_nul;
use crate::error::RepoError;
use crate::repository::{backend_error, Repository};
use crate::repository::find_last_commit::find_last_commit;
use crate::settings::Settings;

verus! {

/// Creates the local branch `name` at the commit under HEAD. An existing
/// branch of that name is left alone, and the call fails; so it does under
/// a name that the backend cannot take.
pub fn create_branch(repository: &Repository, settings: &Settings, name: &str) -> (res: Result<
    (),
    RepoError,
>)
    ensures
        has_nul(name@) ==> res is Err,
        res matches Err(e) ==> e is Backend,
{
    let last = match find_last_commit(repository) {
        Ok(last) => last,
        Err(e) => return Err(e),
    };
    match crate::backend::create_branch(repository, name, &last, false) {
        Ok(_) => Ok(()),
        Err(e) => Err(backend_error(&e)),
    }
}

} // verus!
