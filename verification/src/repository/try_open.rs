use vstd::prelude::*;
use crate::backend::{error_kind, error_message, repository_open};
use crate::error::{BackendErrorKind, BackendFailure, RepoError, RepoErrorView};
use crate::repository::Repository;

verus! {

/// What a failed attempt to open amounts to: no repository where the
/// backend found none, and its error otherwise.
pub open spec fn spec_absent_or_error(
    kind: BackendErrorKind,
    message: Seq<char>,
) -> Option<RepoErrorView> {
    if kind == BackendErrorKind::NotFound {
        None
    } else {
        Some(RepoErrorView::Backend(message))
    }
}

pub fn absent_or_error(kind: BackendErrorKind, message: String) -> (res: Option<RepoError>)
    ensures
        match res {
            Some(e) => spec_absent_or_error(kind, message@) == Some(e@),
            None => spec_absent_or_error(kind, message@) is None,
        },
{
    match kind {
        BackendErrorKind::NotFound => None,
        _ => Some(RepoError::Backend(message)),
    }
}

/// Whether there is a repository, for what became of opening it: there
/// is one where opening succeeded, none where the backend found none, and
/// an error where opening failed otherwise.
pub open spec fn spec_try_open(failed: Option<BackendFailure>) -> Result<bool, RepoErrorView> {
    match failed {
        None => Ok(true),
        Some(failure) => match spec_absent_or_error(failure.kind, failure.message) {
            None => Ok(false),
            Some(e) => Err(e),
        },
    }
}

pub open spec fn try_open_view(r: Result<Option<Repository>, RepoError>) -> Result<bool, RepoErrorView> {
    match r {
        Ok(found) => Ok(found is Some),
        Err(e) => Err(e@),
    }
}

/// Opens the repository at `path` if there is one: a missing repository is
/// no error.
pub fn try_open(path: &str) -> (res: Result<Option<Repository>, RepoError>)
    ensures
        exists|failed: Option<BackendFailure>| try_open_view(res)
            == #[trigger] spec_try_open(failed),
{
    match repository_open(path) {
        Ok(repository) => {
            proof {
                assert(try_open_view(Ok(Some(repository))) == spec_try_open(None));
            }
            Ok(Some(repository))
        },
        Err(e) => {
            let kind = error_kind(&e);
            let message = error_message(&e);
            let ghost failure = BackendFailure { kind, in_reference: false, message: message@ };
            match absent_or_error(kind, message) {
                None => {
                    proof {
                        assert(try_open_view(Ok(None)) == spec_try_open(Some(failure)));
                    }
                    Ok(None)
                },
                Some(error) => {
                    proof {
                        assert(try_open_view(Err(error)) == spec_try_open(Some(failure)));
                    }
                    Err(error)
                },
            }
        },
    }
}

} // verus!
