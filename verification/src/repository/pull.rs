//! Pulling: the local branch is brought up to the remote one, forward only.

use vstd::prelude::*;
use crate::backend::merge_analysis;
use crate::credentials_state::CredentialsState;
use crate::error::{RepoError, RepoErrorView};
use crate::head_status::{branch_of_view, HeadStatus, HeadStatusView};
use crate::merge_class::{classify, spec_classify, Analysis, MergeAction, MergeClass};
use crate::progress::TransferProgress;
use crate::repository::{backend_error, Repository};
use crate::repository::create_unborn::{create_unborn, not_unborn};
use crate::repository::default_branch_for_remote::default_branch_for_remote;
use crate::repository::default_remote::default_remote;
use crate::repository::fast_forward::fast_forward;
use crate::repository::fetch::fetch;
use crate::repository::switch_branch::switch_branch;
use crate::repository_status::RepositoryStatus;
use crate::settings::Settings;
use crate::text::text_view;

verus! {

/// How a pull ended, with the branch that was pulled.
#[derive(Debug, PartialEq, Eq, Clone)]
pub enum PullOutcome {
    /// The local branch already held everything.
    UpToDate(String),
    /// The local branch had no commit and was created at the remote tip.
    CreatedUnborn(String),
    /// The local branch was moved forward to the remote tip.
    FastForwarded(String),
}

pub enum PullOutcomeView {
    UpToDate(Seq<char>),
    CreatedUnborn(Seq<char>),
    FastForwarded(Seq<char>),
}

impl PullOutcomeView {
    pub open spec fn branch(self) -> Seq<char> {
        match self {
            PullOutcomeView::UpToDate(b) => b,
            PullOutcomeView::CreatedUnborn(b) => b,
            PullOutcomeView::FastForwarded(b) => b,
        }
    }
}

impl View for PullOutcome {
    type V = PullOutcomeView;

    open spec fn view(&self) -> PullOutcomeView {
        match self {
            PullOutcome::UpToDate(b) => PullOutcomeView::UpToDate(b@),
            PullOutcome::CreatedUnborn(b) => PullOutcomeView::CreatedUnborn(b@),
            PullOutcome::FastForwarded(b) => PullOutcomeView::FastForwarded(b@),
        }
    }
}

/// What the branch guard lets a pull do.
#[derive(Debug, Clone, Copy, PartialEq, Eq, Structural)]
pub enum Guard {
    /// HEAD is on the default branch already.
    Stay,
    /// HEAD is on another branch and must be moved to the default branch.
    Switch,
}

/// The branch guard. A pull goes ahead where HEAD is on the default
/// branch. Elsewhere it is refused unless switching is allowed; with
/// switching allowed a detached HEAD is still refused, and a named branch
/// is left for the default branch.
pub open spec fn spec_branch_guard(
    head: HeadStatusView,
    default_branch: Seq<char>,
    switch: bool,
) -> Result<Guard, RepoErrorView> {
    if branch_of_view(head) == Some(default_branch) {
        Ok(Guard::Stay)
    } else if !switch {
        Err(RepoErrorView::NotOnDefaultBranch)
    } else if head is Detached {
        Err(RepoErrorView::DetachedHead)
    } else {
        Ok(Guard::Switch)
    }
}

pub fn branch_guard(
    head: &HeadStatus,
    default_branch: &str,
    switch: bool,
) -> (res: Result<Guard, RepoError>)
    ensures
        match res {
            Ok(g) => spec_branch_guard(head@, default_branch@, switch)
                == Ok::<Guard, RepoErrorView>(g),
            Err(e) => spec_branch_guard(head@, default_branch@, switch)
                == Err::<Guard, RepoErrorView>(e@),
        },
{
    if head.is_on(default_branch) {
        Ok(Guard::Stay)
    } else if !switch {
        Err(RepoError::NotOnDefaultBranch)
    } else if head.is_detached() {
        Err(RepoError::DetachedHead)
    } else {
        Ok(Guard::Switch)
    }
}

/// How a pull of `branch` ends for each class of the fetched history.
/// Diverged histories are fatal here: a pull never merges.
pub open spec fn spec_outcome(
    class: MergeClass,
    branch: Seq<char>,
) -> Result<PullOutcomeView, RepoErrorView> {
    match class {
        MergeClass::UpToDate => Ok(PullOutcomeView::UpToDate(branch)),
        MergeClass::Unborn => Ok(PullOutcomeView::CreatedUnborn(branch)),
        MergeClass::FastForward => Ok(PullOutcomeView::FastForwarded(branch)),
        MergeClass::Diverged => Err(RepoErrorView::CannotFastForward),
    }
}

pub fn outcome(class: MergeClass, branch: String) -> (res: Result<PullOutcome, RepoError>)
    ensures
        match res {
            Ok(o) => spec_outcome(class, branch@) == Ok::<PullOutcomeView, RepoErrorView>(o@),
            Err(e) => spec_outcome(class, branch@) == Err::<PullOutcomeView, RepoErrorView>(e@),
        },
{
    match class {
        MergeClass::UpToDate => Ok(PullOutcome::UpToDate(branch)),
        MergeClass::Unborn => Ok(PullOutcome::CreatedUnborn(branch)),
        MergeClass::FastForward => Ok(PullOutcome::FastForwarded(branch)),
        MergeClass::Diverged => Err(RepoError::CannotFastForward),
    }
}

/// What the backend answered to the questions of one pull. A question
/// that the pull never came to ask has an answer here all the same; it is
/// not read.
pub struct PullAnswers {
    /// Why the default remote could not be had, where it could not.
    pub remote: Option<RepoErrorView>,
    /// The default branch that the remote advertised, where it told.
    pub advertised: Option<Seq<char>>,
    /// Why the switch to the default branch failed, where it did.
    pub switched: Option<RepoErrorView>,
    /// Why the fetch failed, where it did.
    pub fetched: Option<RepoErrorView>,
    /// What the ancestry analysis found, or why it failed.
    pub analysis: Result<Analysis, RepoErrorView>,
    /// Why the branch could not take the fetched tip, where it could not.
    pub applied: Option<RepoErrorView>,
}

/// The failures that each step can end in.
pub open spec fn plausible(a: PullAnswers) -> bool {
    &&& a.remote matches Some(e) ==> e is NoRemote || e is AmbiguousRemote || e is Backend
    &&& a.switched matches Some(e) ==> e is Backend || e is CheckoutConflict
    &&& a.fetched matches Some(e) ==> {
        ||| e is Backend
        ||| e is FetchFailed
        ||| e is AuthExhausted
        ||| e is NoMergeTarget
    }
    &&& a.analysis matches Err(e) ==> e is Backend
    &&& a.applied matches Some(e) ==> e is Backend || e is CheckoutConflict
}

/// The last steps of a pull, once the fetch has succeeded: the fetched
/// history is classified, diverged histories are refused, and the branch
/// takes the fetched tip where its class calls for that. A branch can be
/// started only where HEAD was on an unborn branch to begin with.
pub open spec fn spec_converge(head: HeadStatusView, branch: Seq<char>, a: PullAnswers) -> Result<
    PullOutcomeView,
    RepoErrorView,
> {
    match a.analysis {
        Err(e) => Err(e),
        Ok(analysis) => {
            let class = spec_classify(analysis);
            if !class.spec_converges() {
                Err(RepoErrorView::CannotFastForward)
            } else if class.spec_action() == MergeAction::StartBranch && !(head is Unborn) {
                Err(not_unborn())
            } else if class.spec_action() != MergeAction::Nothing && a.applied is Some {
                Err(a.applied->0)
            } else {
                spec_outcome(class, branch)
            }
        },
    }
}

/// The steps of a pull on a known default branch: the branch guard, the
/// switch where the guard asks for it, the fetch, and the convergence.
pub open spec fn spec_pull_branch(
    head: HeadStatusView,
    branch: Seq<char>,
    switch: bool,
    a: PullAnswers,
) -> Result<PullOutcomeView, RepoErrorView> {
    match spec_branch_guard(head, branch, switch) {
        Err(refusal) => Err(refusal),
        Ok(guard) => if guard == Guard::Switch && a.switched is Some {
            Err(a.switched->0)
        } else if a.fetched is Some {
            Err(a.fetched->0)
        } else {
            spec_converge(head, branch, a)
        },
    }
}

/// The pull protocol: what a pull returns for a status, a remote that is
/// given or not, a switch that is allowed or not, and the answers of the
/// backend. The remote is found first, then the default branch, which is
/// the one of the status or else the one that the remote advertises; the
/// first step that fails ends the pull with its error.
pub open spec fn spec_pull(
    head: HeadStatusView,
    default_branch: Option<Seq<char>>,
    remote_given: bool,
    switch: bool,
    a: PullAnswers,
) -> Result<PullOutcomeView, RepoErrorView> {
    if !remote_given && a.remote is Some {
        Err(a.remote->0)
    } else {
        match default_branch {
            Some(branch) => spec_pull_branch(head, branch, switch, a),
            None => match a.advertised {
                Some(branch) => spec_pull_branch(head, branch, switch, a),
                None => Err(RepoErrorView::UnknownDefaultBranch),
            },
        }
    }
}

pub open spec fn pull_view(
    r: Result<PullOutcome, RepoError>,
) -> Result<PullOutcomeView, RepoErrorView> {
    match r {
        Ok(o) => Ok(o@),
        Err(e) => Err(e@),
    }
}

/// Where the remote is given and the default branch is known, a refusal
/// of the branch guard is the result, whatever the backend would have
/// answered: nothing is asked of it.
pub proof fn lemma_refusal_comes_first(
    head: HeadStatusView,
    branch: Seq<char>,
    switch: bool,
    a: PullAnswers,
)
    requires
        spec_branch_guard(head, branch, switch) is Err,
    ensures
        spec_pull(head, Some(branch), true, switch, a) == Err::<PullOutcomeView, RepoErrorView>(
            spec_branch_guard(head, branch, switch)->Err_0,
        ),
{
}

/// A pull that succeeds names the default branch: the one of the status,
/// or the advertised one where the status has none. It reports a created
/// branch only where HEAD was unborn, and it reports what the analysis
/// found.
pub proof fn lemma_outcome_follows_the_analysis(
    head: HeadStatusView,
    default_branch: Option<Seq<char>>,
    remote_given: bool,
    switch: bool,
    a: PullAnswers,
)
    requires
        spec_pull(head, default_branch, remote_given, switch, a) is Ok,
    ensures
        ({
            let o = spec_pull(head, default_branch, remote_given, switch, a)->Ok_0;
            let branch = match default_branch {
                Some(b) => b,
                None => a.advertised->0,
            };
            &&& a.analysis is Ok
            &&& o == spec_outcome(spec_classify(a.analysis->Ok_0), branch)->Ok_0
            &&& o.branch() == branch
            &&& o is CreatedUnborn ==> head is Unborn
            &&& o is UpToDate <==> a.analysis->Ok_0.up_to_date
        }),
{
}

/// The errors of a pull and where they come from: never a push failure;
/// a missing or ambiguous remote only where none was given; an unknown
/// default branch only where the status has none; a refusal for being off
/// the default branch only where switching is not allowed, and one for a
/// detached HEAD only where it is allowed and HEAD is detached.
pub proof fn lemma_errors_have_causes(
    head: HeadStatusView,
    default_branch: Option<Seq<char>>,
    remote_given: bool,
    switch: bool,
    a: PullAnswers,
)
    requires
        plausible(a),
        spec_pull(head, default_branch, remote_given, switch, a) is Err,
    ensures
        ({
            let e = spec_pull(head, default_branch, remote_given, switch, a)->Err_0;
            &&& !(e is PushFailed)
            &&& (e is NoRemote || e is AmbiguousRemote) ==> !remote_given
            &&& e is UnknownDefaultBranch ==> default_branch is None
            &&& e is NotOnDefaultBranch ==> !switch
            &&& e is DetachedHead ==> switch && head is Detached
        }),
{
}

/// A pull of a branch that is up to date touches nothing: its result does
/// not depend on what taking the fetched tip would have come to, so that
/// pulling again gives the same result for the same answers.
pub proof fn lemma_up_to_date_is_idempotent(
    head: HeadStatusView,
    default_branch: Option<Seq<char>>,
    remote_given: bool,
    switch: bool,
    a: PullAnswers,
    applied: Option<RepoErrorView>,
)
    requires
        a.analysis matches Ok(analysis) && analysis.up_to_date,
    ensures
        spec_pull(head, default_branch, remote_given, switch, a) == spec_pull(
            head,
            default_branch,
            remote_given,
            switch,
            PullAnswers { applied, ..a },
        ),
{
}

/// Brings the default branch up to the remote. The remote is the given
/// one, or the default remote; the default branch is the one in `status`,
/// or the one that the remote advertises. HEAD must be on the default
/// branch unless `switch` allows moving it there. Then everything is
/// fetched, with the progress of the transfer going to `progress_callback`,
/// and the local branch takes the fetched tip where that needs no merge.
/// The result is what the protocol yields for the answers of the backend.
pub fn pull<F: Fn(TransferProgress)>(
    repository: &Repository,
    settings: &Settings,
    status: &RepositoryStatus,
    remote: Option<git2::Remote<'_>>,
    switch: bool,
    progress_callback: F,
) -> (res: Result<PullOutcome, RepoError>)
    requires
        forall|u: TransferProgress| progress_callback.requires((u,)),
    ensures
        exists|a: PullAnswers|
            plausible(a) && pull_view(res) == #[trigger] spec_pull(
                status.head@,
                text_view(status.default_branch),
                remote is Some,
                switch,
                a,
            ),
{
    let ghost head = status.head@;
    let ghost known = text_view(status.default_branch);
    let ghost given = remote is Some;
    let ghost mut a = PullAnswers {
        remote: None,
        advertised: None,
        switched: None,
        fetched: None,
        analysis: Err(RepoErrorView::Backend(Seq::empty())),
        applied: None,
    };
    let mut remote = match remote {
        Some(remote) => remote,
        None => match default_remote(repository, settings) {
            Ok(remote) => remote,
            Err(e) => {
                proof {
                    a = PullAnswers { remote: Some(e@), ..a };
                    assert(pull_view(Err(e)) == spec_pull(head, known, given, switch, a));
                }
                return Err(e);
            },
        },
    };
    let mut credentials = CredentialsState::new("git", settings.ssh.as_ref());
    let default_branch = match &status.default_branch {
        Some(branch) => branch.clone(),
        None => match default_branch_for_remote(repository, &mut remote, &mut credentials) {
            Ok(branch) => {
                proof {
                    a = PullAnswers { advertised: Some(branch@), ..a };
                }
                branch
            },
            Err(_) => {
                proof {
                    assert(pull_view(Err(RepoError::UnknownDefaultBranch)) == spec_pull(
                        head,
                        known,
                        given,
                        switch,
                        a,
                    ));
                }
                return Err(RepoError::UnknownDefaultBranch);
            },
        },
    };
    assert(spec_pull(head, known, given, switch, a)
        == spec_pull_branch(head, default_branch@, switch, a));
    match branch_guard(&status.head, default_branch.as_str(), switch) {
        Ok(Guard::Stay) => {},
        Ok(Guard::Switch) => match switch_branch(repository, default_branch.as_str()) {
            Ok(()) => {},
            Err(e) => {
                proof {
                    a = PullAnswers { switched: Some(e@), ..a };
                    assert(pull_view(Err(e)) == spec_pull(head, known, given, switch, a));
                }
                return Err(e);
            },
        },
        Err(e) => {
            proof {
                assert(pull_view(Err(e)) == spec_pull(head, known, given, switch, a));
            }
            return Err(e);
        },
    }
    let headers: Vec<&str> = Vec::new();
    let fetch_commit = match fetch(
        repository,
        remote,
        &mut credentials,
        &headers,
        settings.prune_policy(),
        &progress_callback,
    ) {
        Ok(fetch_commit) => fetch_commit,
        Err(e) => {
            proof {
                a = PullAnswers { fetched: Some(e@), ..a };
                assert(pull_view(Err(e)) == spec_pull(head, known, given, switch, a));
            }
            return Err(e);
        },
    };
    let class = match merge_analysis(repository, &fetch_commit) {
        Ok(analysis) => {
            proof {
                a = PullAnswers { analysis: Ok(analysis), ..a };
            }
            classify(analysis)
        },
        Err(e) => {
            let error = backend_error(&e);
            proof {
                a = PullAnswers { analysis: Err(error@), ..a };
                assert(pull_view(Err(error)) == spec_pull(head, known, given, switch, a));
            }
            return Err(error);
        },
    };
    assert(spec_pull(head, known, given, switch, a) == spec_converge(head, default_branch@, a));
    if !class.converges() {
        return Err(RepoError::CannotFastForward);
    }
    match class.action() {
        MergeAction::Nothing => {},
        MergeAction::StartBranch => match create_unborn(repository, status, fetch_commit) {
            Ok(()) => {},
            Err(e) => {
                proof {
                    a = PullAnswers { applied: Some(e@), ..a };
                    assert(pull_view(Err(e)) == spec_pull(head, known, given, switch, a));
                }
                return Err(e);
            },
        },
        MergeAction::MoveForward => match fast_forward(repository, fetch_commit) {
            Ok(()) => {},
            Err(e) => {
                proof {
                    a = PullAnswers { applied: Some(e@), ..a };
                    assert(pull_view(Err(e)) == spec_pull(head, known, given, switch, a));
                }
                return Err(e);
            },
        },
    }
    let result = outcome(class, default_branch);
    proof {
        assert(pull_view(result) == spec_pull(head, known, given, switch, a));
    }
    result
}

} // verus!
