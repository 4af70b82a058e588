//! How the branch under HEAD relates to the remote-tracking branch that it
//! follows.

use vstd::prelude::*;
use crate::backend::{
    branch_upstream_name, branch_upstream_remote, error_kind, error_message, graph_ahead_behind,
    refname_to_id,
};
use crate::error::{BackendErrorKind, BackendFailure, RepoError, RepoErrorView};
use crate::head_status::{branch_ref, HeadStatus, HeadStatusView};
use crate::repository::Repository;

verus! {

#[derive(Debug, Clone, PartialEq, Eq)]
pub enum UpstreamStatus {
    /// HEAD is on no branch, or the branch follows nothing.
    Untracked,
    /// The branch follows a branch of `remote_name`; it has `ahead` commits
    /// that the upstream lacks and lacks `behind` commits that it has.
    Tracking { remote_name: String, ahead: usize, behind: usize },
}

pub enum UpstreamStatusView {
    Untracked,
    Tracking { remote_name: Seq<char>, ahead: nat, behind: nat },
}

impl View for UpstreamStatus {
    type V = UpstreamStatusView;

    open spec fn view(&self) -> UpstreamStatusView {
        match self {
            UpstreamStatus::Untracked => UpstreamStatusView::Untracked,
            UpstreamStatus::Tracking { remote_name, ahead, behind } => UpstreamStatusView::Tracking {
                remote_name: remote_name@,
                ahead: *ahead as nat,
                behind: *behind as nat,
            },
        }
    }
}

/// What a failed lookup of the upstream amounts to: no upstream where none
/// is configured, and a backend error otherwise.
pub open spec fn spec_no_upstream(kind: BackendErrorKind, message: Seq<char>) -> Result<
    UpstreamStatusView,
    RepoErrorView,
> {
    if kind == BackendErrorKind::NotFound {
        Ok(UpstreamStatusView::Untracked)
    } else {
        Err(RepoErrorView::Backend(message))
    }
}

pub fn no_upstream(
    kind: BackendErrorKind,
    message: String,
) -> (res: Result<UpstreamStatus, RepoError>)
    ensures
        match res {
            Ok(u) => spec_no_upstream(kind, message@)
                == Ok::<UpstreamStatusView, RepoErrorView>(u@),
            Err(e) => spec_no_upstream(kind, message@)
                == Err::<UpstreamStatusView, RepoErrorView>(e@),
        },
{
    match kind {
        BackendErrorKind::NotFound => Ok(UpstreamStatus::Untracked),
        _ => Err(RepoError::Backend(message)),
    }
}

/// What the backend answered to the questions about the upstream. A
/// question that was never asked has an answer here all the same; it is
/// not read.
pub struct UpstreamAnswers {
    /// How looking up the followed branch failed, where it did.
    pub followed: Option<BackendFailure>,
    /// The name of the remote that is followed, or why it could not be
    /// told.
    pub remote: Result<Seq<char>, Seq<char>>,
    /// Why the local tip could not be found, where it could not.
    pub local: Option<Seq<char>>,
    /// Why the tip of the followed branch could not be found, where it
    /// could not.
    pub tip: Option<Seq<char>>,
    /// How far the branch is ahead and behind, or why that could not be
    /// counted.
    pub counts: Result<(nat, nat), Seq<char>>,
}

/// The upstream status for a status of HEAD and the answers of the
/// backend. There is none where HEAD is on no born branch, and none where
/// the branch follows nothing. Otherwise the followed remote, both tips
/// and the counts must be had, and every failure on the way is a backend
/// error.
pub open spec fn spec_upstream(head: HeadStatusView, a: UpstreamAnswers) -> Result<
    UpstreamStatusView,
    RepoErrorView,
> {
    if !(head is Branch) {
        Ok(UpstreamStatusView::Untracked)
    } else if a.followed is Some {
        spec_no_upstream(a.followed->0.kind, a.followed->0.message)
    } else {
        match a.remote {
            Err(message) => Err(RepoErrorView::Backend(message)),
            Ok(remote_name) => if a.local is Some {
                Err(RepoErrorView::Backend(a.local->0))
            } else if a.tip is Some {
                Err(RepoErrorView::Backend(a.tip->0))
            } else {
                match a.counts {
                    Err(message) => Err(RepoErrorView::Backend(message)),
                    Ok((ahead, behind)) => Ok(UpstreamStatusView::Tracking { remote_name, ahead, behind }),
                }
            },
        }
    }
}

pub open spec fn upstream_view(r: Result<UpstreamStatus, RepoError>) -> Result<
    UpstreamStatusView,
    RepoErrorView,
> {
    match r {
        Ok(u) => Ok(u@),
        Err(e) => Err(e@),
    }
}

/// The upstream status fails only with a backend error, and a branch
/// whose upstream is configured and does not resolve is such a failure.
pub proof fn lemma_upstream_fails_with_backend_errors(head: HeadStatusView, a: UpstreamAnswers)
    ensures
        spec_upstream(head, a) matches Err(e) ==> e is Backend,
        (head is Branch && a.followed is None && a.remote is Ok && a.local is None && a.tip is Some)
            ==> spec_upstream(head, a) is Err,
{
}

/// The upstream of the branch under HEAD. There is none where HEAD is not
/// on a born branch or the branch follows nothing; otherwise the counts
/// come from the ancestry of the two tips. Fails only with a backend
/// error, as when the configured upstream does not resolve. The status is
/// the one that the answers of the backend amount to.
pub fn upstream_status(repository: &Repository, head_status: &HeadStatus) -> (res: Result<
    UpstreamStatus,
    RepoError,
>)
    ensures
        exists|a: UpstreamAnswers| upstream_view(res) == #[trigger] spec_upstream(head_status@, a),
{
    let ghost mut a = UpstreamAnswers {
        followed: None,
        remote: Err(Seq::empty()),
        local: None,
        tip: None,
        counts: Err(Seq::empty()),
    };
    match head_status {
        HeadStatus::Branch { name } => {
            let refname = branch_ref(name.as_str());
            let upstream_ref = match branch_upstream_name(repository, refname.as_str()) {
                Ok(upstream_ref) => upstream_ref,
                Err(e) => {
                    let kind = error_kind(&e);
                    let message = error_message(&e);
                    proof {
                        a = UpstreamAnswers {
                            followed: Some(BackendFailure { kind, in_reference: false, message: message@ }),
                            ..a
                        };
                    }
                    let result = no_upstream(kind, message);
                    proof {
                        assert(upstream_view(result) == spec_upstream(head_status@, a));
                    }
                    return result;
                },
            };
            let remote_name = match branch_upstream_remote(repository, refname.as_str()) {
                Ok(remote_name) => remote_name,
                Err(e) => {
                    let message = error_message(&e);
                    proof {
                        a = UpstreamAnswers { remote: Err(message@), ..a };
                        assert(upstream_view(Err(RepoError::Backend(message)))
                            == spec_upstream(head_status@, a));
                    }
                    return Err(RepoError::Backend(message));
                },
            };
            proof {
                a = UpstreamAnswers { remote: Ok(remote_name@), ..a };
            }
            let local = match refname_to_id(repository, refname.as_str()) {
                Ok(local) => local,
                Err(e) => {
                    let message = error_message(&e);
                    proof {
                        a = UpstreamAnswers { local: Some(message@), ..a };
                        assert(upstream_view(Err(RepoError::Backend(message)))
                            == spec_upstream(head_status@, a));
                    }
                    return Err(RepoError::Backend(message));
                },
            };
            let upstream = match refname_to_id(repository, upstream_ref.as_str()) {
                Ok(upstream) => upstream,
                Err(e) => {
                    let message = error_message(&e);
                    proof {
                        a = UpstreamAnswers { tip: Some(message@), ..a };
                        assert(upstream_view(Err(RepoError::Backend(message)))
                            == spec_upstream(head_status@, a));
                    }
                    return Err(RepoError::Backend(message));
                },
            };
            match graph_ahead_behind(repository, local, upstream) {
                Ok((ahead, behind)) => {
                    proof {
                        a = UpstreamAnswers { counts: Ok((ahead as nat, behind as nat)), ..a };
                    }
                    let result = UpstreamStatus::Tracking { remote_name, ahead, behind };
                    proof {
                        assert(upstream_view(Ok(result)) == spec_upstream(head_status@, a));
                    }
                    Ok(result)
                },
                Err(e) => {
                    let message = error_message(&e);
                    proof {
                        a = UpstreamAnswers { counts: Err(message@), ..a };
                        assert(upstream_view(Err(RepoError::Backend(message)))
                            == spec_upstream(head_status@, a));
                    }
                    Err(RepoError::Backend(message))
                },
            }
        },
        _ => {
            proof {
                assert(upstream_view(Ok(UpstreamStatus::Untracked))
                    == spec_upstream(head_status@, a));
            }
            Ok(UpstreamStatus::Untracked)
        },
    }
}

} // verus!
