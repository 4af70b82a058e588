//! Pushing: the branch under HEAD goes to the remote under its own name.

use vstd::prelude::*;
use crate::backend::{
    error_kind, error_message, headers_ok, reference_name, remote_push, repository_head,
};
use crate::credentials_state::CredentialsState;
use crate::error::{BackendErrorKind, BackendFailure, RepoError, RepoErrorView};
use crate::repository::Repository;
use crate::repository::default_remote::{default_remote, spec_default_remote, RemoteAnswers};
use crate::repository::fetch::bad_header;
use crate::repository::headers::headers_valid;
use crate::repository_status::RepositoryStatus;
use crate::settings::Settings;
use crate::text::text_view;

verus! {

/// The error for a transfer that failed while pushing: exhaustion where
/// the remote refused the last credential that the negotiation had, and a
/// push failure with the backend's message otherwise.
pub open spec fn spec_push_failure(
    exhausted: bool,
    kind: BackendErrorKind,
    message: Seq<char>,
) -> RepoErrorView {
    if exhausted && kind == BackendErrorKind::Auth {
        RepoErrorView::AuthExhausted
    } else {
        RepoErrorView::PushFailed(message)
    }
}

pub fn push_failure(exhausted: bool, kind: BackendErrorKind, message: String) -> (res: RepoError)
    ensures
        res@ == spec_push_failure(exhausted, kind, message@),
{
    match kind {
        BackendErrorKind::Auth => if exhausted {
            RepoError::AuthExhausted
        } else {
            RepoError::PushFailed(message)
        },
        _ => RepoError::PushFailed(message),
    }
}

/// What the backend answered to the questions of one push. A question
/// that was never asked has an answer here all the same; it is not read.
pub struct PushAnswers {
    /// Why HEAD could not be read, where it could not.
    pub head: Option<Seq<char>>,
    /// Why the name of the reference under HEAD could not be read, where
    /// it could not.
    pub name: Option<Seq<char>>,
    /// How the transfer failed, where it did.
    pub transfer: Option<BackendFailure>,
    /// Whether the negotiation had run out of strategies when the transfer
    /// ended.
    pub exhausted: bool,
}

/// The push protocol: whether a push succeeds, and with which error it
/// fails, for headers that can be sent or not and the answers of the
/// backend. Headers that cannot be sent are refused first; then HEAD and
/// the name of its reference must be had, and the transfer must go
/// through.
pub open spec fn spec_push(sendable: bool, a: PushAnswers) -> Result<(), RepoErrorView> {
    if !sendable {
        Err(bad_header())
    } else if a.head is Some {
        Err(RepoErrorView::Backend(a.head->0))
    } else if a.name is Some {
        Err(RepoErrorView::Backend(a.name->0))
    } else if a.transfer is Some {
        Err(spec_push_failure(a.exhausted, a.transfer->0.kind, a.transfer->0.message))
    } else {
        Ok(())
    }
}

pub open spec fn push_view(r: Result<(), RepoError>) -> Result<(), RepoErrorView> {
    match r {
        Ok(_) => Ok(()),
        Err(e) => Err(e@),
    }
}

/// A push reports exhaustion exactly where the transfer failed for want
/// of authentication after the last strategy had been offered, and a push
/// failure exactly where the transfer failed otherwise.
pub proof fn lemma_push_errors_have_causes(a: PushAnswers)
    ensures
        spec_push(true, a) == Err::<(), RepoErrorView>(RepoErrorView::AuthExhausted) <==> {
            &&& a.head is None
            &&& a.name is None
            &&& a.transfer is Some
            &&& a.exhausted
            &&& a.transfer->0.kind == BackendErrorKind::Auth
        },
        spec_push(true, a) matches Err(e) ==> (e is PushFailed <==> {
            &&& a.head is None
            &&& a.name is None
            &&& a.transfer is Some
            &&& !(a.exhausted && a.transfer->0.kind == BackendErrorKind::Auth)
        }),
        spec_push(true, a) matches Err(e) ==> e is Backend || e is PushFailed || e is AuthExhausted,
        spec_push(false, a) == Err::<(), RepoErrorView>(bad_header()),
{
}

/// Pushes the reference under HEAD to `remote`, sending `headers` and
/// negotiating credentials with `credentials`. Headers that the backend
/// cannot send are refused before anything is transferred. Success and
/// failure are what the protocol yields for the answers of the backend.
pub fn push_head(
    repository: &Repository,
    remote: git2::Remote<'_>,
    credentials: &mut CredentialsState,
    headers: &Vec<&str>,
) -> (res: Result<(), RepoError>)
    ensures
        exists|a: PushAnswers| push_view(res) == #[trigger] spec_push(headers_ok(headers@), a),
        !headers_ok(headers@) ==> final(credentials)@ == old(credentials)@,
{
    let ghost mut a = PushAnswers { head: None, name: None, transfer: None, exhausted: false };
    if !headers_valid(headers) {
        let error = RepoError::from_message("a header holds a NUL character");
        proof {
            assert(push_view(Err(error)) == spec_push(false, a));
        }
        return Err(error);
    }
    let head = match repository_head(repository) {
        Ok(head) => head,
        Err(e) => {
            let message = error_message(&e);
            proof {
                a = PushAnswers { head: Some(message@), ..a };
                assert(push_view(Err(RepoError::Backend(message))) == spec_push(true, a));
            }
            return Err(RepoError::Backend(message));
        },
    };
    let refname = match reference_name(&head) {
        Ok(refname) => refname,
        Err(e) => {
            let message = error_message(&e);
            proof {
                a = PushAnswers { name: Some(message@), ..a };
                assert(push_view(Err(RepoError::Backend(message))) == spec_push(true, a));
            }
            return Err(RepoError::Backend(message));
        },
    };
    let mut remote = remote;
    match remote_push(&mut remote, credentials, headers, refname.as_str()) {
        Ok(()) => {
            proof {
                assert(push_view(Ok(())) == spec_push(true, a));
            }
            Ok(())
        },
        Err(e) => {
            let exhausted = credentials.is_exhausted();
            let kind = error_kind(&e);
            let message = error_message(&e);
            proof {
                a = PushAnswers {
                    transfer: Some(BackendFailure { kind, in_reference: false, message: message@ }),
                    exhausted,
                    ..a
                };
            }
            let error = push_failure(exhausted, kind, message);
            proof {
                assert(push_view(Err(error)) == spec_push(true, a));
            }
            Err(error)
        },
    }
}

/// The protocol of a push to a remote that is given or not: where none is
/// given the default remote must be had first, and its failure is the
/// result; then the push goes as it goes, with no headers.
pub open spec fn spec_push_to(
    given: bool,
    preferred: Option<Seq<char>>,
    remotes: RemoteAnswers,
    a: PushAnswers,
) -> Result<(), RepoErrorView> {
    if !given && spec_default_remote(preferred, remotes) is Err {
        Err(spec_default_remote(preferred, remotes)->Err_0)
    } else {
        spec_push(true, a)
    }
}

/// A push to a given remote never fails for want of a remote.
pub proof fn lemma_given_remote_is_used(
    preferred: Option<Seq<char>>,
    remotes: RemoteAnswers,
    a: PushAnswers,
)
    ensures
        spec_push_to(true, preferred, remotes, a) == spec_push(true, a),
        !(spec_push_to(true, preferred, remotes, a) matches Err(e)
            && (e is NoRemote || e is AmbiguousRemote)),
{
}

/// Pushes the branch under HEAD to `remote`, or to the default remote
/// where none is given. Success and failure are what the protocol yields
/// for the answers of the backend.
pub fn push(
    repository: &Repository,
    settings: &Settings,
    status: &RepositoryStatus,
    remote: Option<git2::Remote<'_>>,
) -> (res: Result<(), RepoError>)
    ensures
        exists|remotes: RemoteAnswers, a: PushAnswers|
            push_view(res) == #[trigger] spec_push_to(
                remote is Some,
                text_view(settings.default_remote),
                remotes,
                a,
            ),
{
    let ghost given = remote is Some;
    let ghost preferred = text_view(settings.default_remote);
    let mut credentials = CredentialsState::new("git", settings.ssh.as_ref());
    let headers: Vec<&str> = Vec::new();
    let remote = match remote {
        Some(remote) => remote,
        None => {
            let chosen = default_remote(repository, settings);
            let ghost remotes = choose|r: RemoteAnswers|
                match chosen {
                    Ok(_) => (#[trigger] spec_default_remote(preferred, r)) is Ok,
                    Err(e) => spec_default_remote(preferred, r)
                        == Err::<Seq<char>, RepoErrorView>(e@),
                };
            match chosen {
                Ok(remote) => remote,
                Err(e) => {
                    proof {
                        let a = PushAnswers { head: None, name: None, transfer: None, exhausted: false };
                        assert(push_view(Err(e)) == spec_push_to(given, preferred, remotes, a));
                    }
                    return Err(e);
                },
            }
        },
    };
    let result = push_head(repository, remote, &mut credentials, &headers);
    proof {
        let a = choose|a: PushAnswers| push_view(result)
            == #[trigger] spec_push(headers_ok(headers@), a);
        let remotes = choose|r: RemoteAnswers| given
            || (#[trigger] spec_default_remote(preferred, r)) is Ok;
        assert(push_view(result) == spec_push_to(given, preferred, remotes, a));
    }
    result
}

} // verus!
