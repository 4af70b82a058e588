use vstd::prelude::*;
use crate::backend::{
    error_in_reference, error_kind, error_message, find_reference, oid_to_string, reference_resolve,
    reference_symbolic_target, reference_target,
};
use crate::error::{BackendErrorKind, BackendFailure, RepoError, RepoErrorView};
use crate::head_status::{
    classify_head, means_unborn, result_view, spec_branch_name, spec_classify, HeadProbe,
    HeadStatus, HeadStatusView, Resolution,
};
use crate::repository::Repository;
use crate::text::text_view;

verus! {

/// What the backend answered to the questions about HEAD. A question that
/// was never asked has an answer here all the same; it is not read.
pub struct HeadAnswers {
    /// Why HEAD could not be read, where it could not.
    pub found: Option<Seq<char>>,
    /// The name that HEAD holds, nothing where it holds a commit, or why
    /// that could not be told.
    pub symbolic: Result<Option<Seq<char>>, Seq<char>>,
    /// How following the name to a commit failed, where it did.
    pub resolution: Option<BackendFailure>,
    /// The commit that HEAD holds, where it holds one.
    pub commit: Option<Seq<char>>,
}

/// The status of HEAD for the answers of the backend. Where HEAD or what
/// it holds cannot be read, that is a backend error. A symbolic HEAD is a
/// branch where its name leads to a commit, and an unborn branch where the
/// name leads nowhere yet; a HEAD that holds a commit is detached.
pub open spec fn spec_head(a: HeadAnswers) -> Result<HeadStatusView, RepoErrorView> {
    if a.found is Some {
        Err(RepoErrorView::Backend(a.found->0))
    } else {
        match a.symbolic {
            Err(message) => Err(RepoErrorView::Backend(message)),
            Ok(Some(target)) => match a.resolution {
                None => spec_classify(Some(target), true, BackendErrorKind::Other, Seq::empty(), None),
                Some(failure) => spec_classify(Some(target), false, failure.kind, failure.message, None),
            },
            Ok(None) => spec_classify(None, false, BackendErrorKind::Other, Seq::empty(), a.commit),
        }
    }
}

/// In a repository without commits, HEAD names a branch that leads
/// nowhere yet: the status is an unborn branch, and the branch is the one
/// that HEAD names.
pub proof fn lemma_no_commit_means_unborn(a: HeadAnswers, target: Seq<char>)
    requires
        a.found is None,
        a.symbolic == Ok::<Option<Seq<char>>, Seq<char>>(Some(target)),
        a.resolution is Some,
        means_unborn(a.resolution->0.kind),
    ensures
        spec_head(a) == Ok::<HeadStatusView, RepoErrorView>(
            HeadStatusView::Unborn { branch_name: spec_branch_name(target) },
        ),
{
}

/// The status is unborn exactly where HEAD is symbolic and its name leads
/// nowhere yet, a branch exactly where HEAD is symbolic and its name leads
/// to a commit, and detached exactly where HEAD holds a commit. Every
/// failure is a backend error.
pub proof fn lemma_head_status_by_cases(a: HeadAnswers)
    ensures
        spec_head(a) matches Ok(HeadStatusView::Unborn { .. })
            <==> (readable(a) && a.symbolic->Ok_0 is Some
            && a.resolution is Some && means_unborn(a.resolution->0.kind)),
        spec_head(a) matches Ok(HeadStatusView::Branch { .. })
            <==> (readable(a) && a.symbolic->Ok_0 is Some
            && a.resolution is None),
        spec_head(a) matches Ok(HeadStatusView::Detached { .. })
            <==> (readable(a) && a.symbolic->Ok_0 is None
            && a.commit is Some),
        spec_head(a) matches Err(e) ==> e is Backend,
{
}

/// How following HEAD failed, where it did.
pub open spec fn failure_of(resolution: Resolution) -> Option<BackendFailure> {
    match resolution {
        Resolution::Resolved => None,
        Resolution::Failed { kind, message } => Some(
            BackendFailure { kind, in_reference: false, message: message@ },
        ),
    }
}

/// Whether HEAD and what it holds could be read.
pub open spec fn readable(a: HeadAnswers) -> bool {
    a.found is None && a.symbolic is Ok
}

/// Reads HEAD as the backend holds it: the name it points to and whether
/// that name leads to a commit, or the commit it holds.
pub fn probe_head(repository: &Repository) -> (res: Result<HeadProbe, RepoError>)
    ensures
        exists|a: HeadAnswers|
            #[trigger] spec_head(a) == match res {
                Ok(probe) => probe.classification(),
                Err(e) => Err::<HeadStatusView, RepoErrorView>(e@),
            },
{
    let ghost mut a = HeadAnswers { found: None, symbolic: Ok(None), resolution: None, commit: None };
    let head = match find_reference(repository, "HEAD") {
        Ok(head) => head,
        Err(e) => {
            let message = error_message(&e);
            proof {
                a = HeadAnswers { found: Some(message@), ..a };
                assert(spec_head(a) == Err::<HeadStatusView, RepoErrorView>(RepoError::Backend(message)@));
            }
            return Err(RepoError::Backend(message));
        },
    };
    let symbolic = match reference_symbolic_target(&head) {
        Ok(symbolic) => symbolic,
        Err(e) => {
            let message = error_message(&e);
            proof {
                a = HeadAnswers { symbolic: Err(message@), ..a };
                assert(spec_head(a) == Err::<HeadStatusView, RepoErrorView>(RepoError::Backend(message)@));
            }
            return Err(RepoError::Backend(message));
        },
    };
    match symbolic {
        Some(target) => {
            let resolution = match reference_resolve(&head) {
                Ok(_) => Resolution::Resolved,
                Err(e) => Resolution::Failed { kind: error_kind(&e), message: error_message(&e) },
            };
            proof {
                a = HeadAnswers {
                    symbolic: Ok(Some(target@)),
                    resolution: failure_of(resolution),
                    ..a
                };
            }
            let probe = HeadProbe::Symbolic { target, resolution };
            proof {
                assert(spec_head(a) == probe.classification());
            }
            Ok(probe)
        },
        None => {
            let commit_id = match reference_target(&head) {
                Some(id) => Some(oid_to_string(id)),
                None => None,
            };
            proof {
                a = HeadAnswers {
                    symbolic: Ok(None),
                    commit: text_view(commit_id),
                    ..a
                };
            }
            let probe = HeadProbe::Direct { commit_id };
            proof {
                assert(spec_head(a) == probe.classification());
            }
            Ok(probe)
        },
    }
}

/// Where HEAD is: on an unborn branch where it names a branch that has no
/// commit, detached where it holds a commit, on a branch where it names
/// one that resolves. Fails only with a backend error, on references that
/// are corrupt or cannot be read. The status is the one that the answers
/// of the backend amount to.
pub fn head_status(repository: &Repository) -> (res: Result<HeadStatus, RepoError>)
    ensures
        exists|a: HeadAnswers| #[trigger] spec_head(a) == result_view(res),
{
    match probe_head(repository) {
        Ok(probe) => classify_head(probe),
        Err(e) => Err(e),
    }
}

} // verus!
