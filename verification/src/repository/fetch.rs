//! Fetching: everything the remote has is brought in, and the commit that
//! the fetch marked for merging is handed back.

use vstd::prelude::*;
use crate::backend::{
    error_in_reference, error_kind, error_message, fetch_prune, find_reference, headers_ok,
    reference_to_annotated_commit, remote_fetch,
};
use crate::credentials_state::CredentialsState;
use crate::error::{BackendErrorKind, BackendFailure, RepoError, RepoErrorView};
use crate::progress::{ProgressGate, TransferProgress};
use crate::repository::Repository;
use crate::repository::headers::headers_valid;
use crate::settings::Prune;

verus! {

/// The error for a transfer that failed while fetching: exhaustion where
/// the remote refused the last credential that the negotiation had, and a
/// fetch failure with the backend's message otherwise.
pub open spec fn spec_fetch_failure(
    exhausted: bool,
    kind: BackendErrorKind,
    message: Seq<char>,
) -> RepoErrorView {
    if exhausted && kind == BackendErrorKind::Auth {
        RepoErrorView::AuthExhausted
    } else {
        RepoErrorView::FetchFailed(message)
    }
}

pub fn fetch_failure(exhausted: bool, kind: BackendErrorKind, message: String) -> (res: RepoError)
    ensures
        res@ == spec_fetch_failure(exhausted, kind, message@),
{
    match kind {
        BackendErrorKind::Auth => if exhausted {
            RepoError::AuthExhausted
        } else {
            RepoError::FetchFailed(message)
        },
        _ => RepoError::FetchFailed(message),
    }
}

/// The error for a fetch whose record cannot be read. There is no merge
/// target where the record is missing or holds no reference, as after a
/// fetch from a remote that has none; anything else is a backend error.
pub open spec fn spec_merge_target_failure(
    kind: BackendErrorKind,
    in_reference: bool,
    message: Seq<char>,
) -> RepoErrorView {
    if kind == BackendErrorKind::NotFound || in_reference {
        RepoErrorView::NoMergeTarget
    } else {
        RepoErrorView::Backend(message)
    }
}

pub fn merge_target_failure(
    kind: BackendErrorKind,
    in_reference: bool,
    message: String,
) -> (res: RepoError)
    ensures
        res@ == spec_merge_target_failure(kind, in_reference, message@),
{
    if in_reference {
        return RepoError::NoMergeTarget;
    }
    match kind {
        BackendErrorKind::NotFound => RepoError::NoMergeTarget,
        _ => RepoError::Backend(message),
    }
}

/// What the backend answered to the questions of one fetch. A question
/// that was never asked has an answer here all the same; it is not read.
pub struct FetchAnswers {
    /// How the transfer failed, where it did.
    pub transfer: Option<BackendFailure>,
    /// Whether the negotiation had run out of strategies when the transfer
    /// ended.
    pub exhausted: bool,
    /// How reading the record of the fetch failed, where it did.
    pub record: Option<BackendFailure>,
    /// Why the recorded commit could not be looked up, where it could not.
    pub target: Option<Seq<char>>,
}

/// The error for headers that the backend cannot send.
pub open spec fn bad_header() -> RepoErrorView {
    RepoErrorView::Backend("a header holds a NUL character"@)
}

/// The fetch protocol: whether a fetch succeeds, and with which error it
/// fails, for headers that can be sent or not and the answers of the
/// backend. Headers that cannot be sent are refused first; then the
/// transfer, the record of the fetch and the recorded commit must be had,
/// in this order.
pub open spec fn spec_fetch(sendable: bool, a: FetchAnswers) -> Result<(), RepoErrorView> {
    if !sendable {
        Err(bad_header())
    } else if a.transfer is Some {
        Err(spec_fetch_failure(a.exhausted, a.transfer->0.kind, a.transfer->0.message))
    } else if a.record is Some {
        Err(spec_merge_target_failure(a.record->0.kind, a.record->0.in_reference, a.record->0.message))
    } else if a.target is Some {
        Err(RepoErrorView::Backend(a.target->0))
    } else {
        Ok(())
    }
}

pub open spec fn fetch_view<T>(r: Result<T, RepoError>) -> Result<(), RepoErrorView> {
    match r {
        Ok(_) => Ok(()),
        Err(e) => Err(e@),
    }
}

/// A fetch reports exhaustion exactly where the transfer failed for want
/// of authentication after the last strategy had been offered, and it
/// reports that there is nothing to merge exactly where the transfer went
/// through and the record of the fetch is missing or holds no reference.
pub proof fn lemma_fetch_errors_have_causes(a: FetchAnswers)
    ensures
        spec_fetch(true, a) == Err::<(), RepoErrorView>(RepoErrorView::AuthExhausted) <==> {
            &&& a.transfer is Some
            &&& a.exhausted
            &&& a.transfer->0.kind == BackendErrorKind::Auth
        },
        spec_fetch(true, a) == Err::<(), RepoErrorView>(RepoErrorView::NoMergeTarget) <==> {
            &&& a.transfer is None
            &&& a.record is Some
            &&& a.record->0.kind == BackendErrorKind::NotFound || a.record->0.in_reference
        },
        spec_fetch(true, a) matches Err(e) ==> {
            ||| e is Backend
            ||| e is FetchFailed
            ||| e is AuthExhausted
            ||| e is NoMergeTarget
        },
        spec_fetch(false, a) == Err::<(), RepoErrorView>(bad_header()),
{
}

/// Fetches all references and tags from `remote`, sending `headers` and
/// negotiating credentials with `credentials`, and returns the commit that
/// the fetch marked for merging. The sink is called for each progress
/// update that does not fall behind the one before. Headers that the
/// backend cannot send are refused before anything is transferred. Success
/// and failure are what the protocol yields for the answers of the
/// backend.
pub fn fetch<'a, F: Fn(TransferProgress)>(
    repository: &'a Repository,
    remote: git2::Remote<'_>,
    credentials: &mut CredentialsState,
    headers: &Vec<&str>,
    prune: Prune,
    progress_callback: &F,
) -> (res: Result<git2::AnnotatedCommit<'a>, RepoError>)
    requires
        forall|u: TransferProgress| progress_callback.requires((u,)),
    ensures
        exists|a: FetchAnswers| fetch_view(res) == #[trigger] spec_fetch(headers_ok(headers@), a),
        !headers_ok(headers@) ==> final(credentials)@ == old(credentials)@,
{
    let ghost mut a = FetchAnswers { transfer: None, exhausted: false, record: None, target: None };
    if !headers_valid(headers) {
        let error = RepoError::from_message("a header holds a NUL character");
        proof {
            assert(fetch_view::<git2::AnnotatedCommit<'a>>(Err(error)) == spec_fetch(false, a));
        }
        return Err(error);
    }
    let mut remote = remote;
    let mut gate = ProgressGate::new();
    match remote_fetch(&mut remote, credentials, headers, fetch_prune(prune), &mut gate, progress_callback) {
        Ok(()) => {},
        Err(e) => {
            let exhausted = credentials.is_exhausted();
            let kind = error_kind(&e);
            let message = error_message(&e);
            proof {
                a = FetchAnswers {
                    transfer: Some(BackendFailure { kind, in_reference: false, message: message@ }),
                    exhausted,
                    ..a
                };
            }
            let error = fetch_failure(exhausted, kind, message);
            proof {
                assert(fetch_view::<git2::AnnotatedCommit<'a>>(Err(error)) == spec_fetch(true, a));
            }
            return Err(error);
        },
    }
    let fetch_head = match find_reference(repository, "FETCH_HEAD") {
        Ok(fetch_head) => fetch_head,
        Err(e) => {
            let kind = error_kind(&e);
            let in_reference = error_in_reference(&e);
            let message = error_message(&e);
            proof {
                a = FetchAnswers { record: Some(BackendFailure { kind, in_reference, message: message@ }), ..a };
            }
            let error = merge_target_failure(kind, in_reference, message);
            proof {
                assert(fetch_view::<git2::AnnotatedCommit<'a>>(Err(error)) == spec_fetch(true, a));
            }
            return Err(error);
        },
    };
    match reference_to_annotated_commit(repository, &fetch_head) {
        Ok(commit) => {
            proof {
                assert(fetch_view(Ok::<git2::AnnotatedCommit<'a>, RepoError>(commit))
                    == spec_fetch(true, a));
            }
            Ok(commit)
        },
        Err(e) => {
            let message = error_message(&e);
            proof {
                a = FetchAnswers { target: Some(message@), ..a };
            }
            let error = RepoError::Backend(message);
            proof {
                assert(fetch_view::<git2::AnnotatedCommit<'a>>(Err(error)) == spec_fetch(true, a));
            }
            Err(error)
        },
    }
}

} // verus!
