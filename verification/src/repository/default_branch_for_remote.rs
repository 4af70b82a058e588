use vstd::prelude::*;
use crate::backend::{remote_connect, remote_default_branch};
use crate::credentials_state::{negotiated, CredentialsState, Request};
use crate::error::RepoError;
use crate::head_status::branch_name;
use crate::repository::{backend_error, Repository};

verus! {

/// The branch that `remote` advertises as its default. The remote is
/// connected read-only for the question; nothing is fetched. The
/// negotiation comes back as the requests of the remote have left it: it
/// has only moved forward.
pub fn default_branch_for_remote(
    repository: &Repository,
    remote: &mut git2::Remote<'_>,
    credentials: &mut CredentialsState,
) -> (res: Result<String, RepoError>)
    ensures
        res matches Err(e) ==> e is Backend,
        exists|requests: Seq<Request>|
            final(credentials)@ == #[trigger] negotiated(old(credentials)@, requests),
{
    match remote_connect(remote, credentials) {
        Ok(()) => {},
        Err(e) => return Err(backend_error(&e)),
    }
    match remote_default_branch(remote) {
        Ok(refname) => Ok(branch_name(refname.as_str())),
        Err(e) => Err(backend_error(&e)),
    }
}

} // verus!
