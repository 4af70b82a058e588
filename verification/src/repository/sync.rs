use vstd::prelude::*;
use crate::error::{RepoError, RepoErrorView};
use crate::origin::Origin;
use crate::repository::Repository;
use crate::repository::resolve::{plausible, resolve, spec_resolve, ResolveAnswers};
use crate::resolve::Resolve;
use crate::sync::Sync;

verus! {

/// The result of a synchronisation as that of the reconciliation behind
/// it.
pub open spec fn sync_view(r: Result<Sync, RepoError>) -> Result<Resolve, RepoErrorView> {
    match r {
        Ok(synced) => Ok(Resolve { ok: synced.ok }),
        Err(e) => Err(e@),
    }
}

/// Synchronises the repository with `origin`: the same protocol as a
/// reconciliation, with the same result.
pub fn sync(repository: &Repository, origin: &Origin) -> (res: Result<Sync, RepoError>)
    ensures
        exists|a: ResolveAnswers| plausible(a)
            && sync_view(res) == #[trigger] spec_resolve(origin@, a),
{
    match resolve(repository, origin) {
        Ok(resolved) => Ok(Sync { ok: resolved.ok }),
        Err(e) => Err(e),
    }
}

} // verus!
