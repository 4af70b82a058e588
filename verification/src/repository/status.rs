use vstd::prelude::*;
use crate::error::{RepoError, RepoErrorView};
use crate::repository::Repository;
use crate::repository::head_status::{head_status, spec_head, HeadAnswers};
use crate::repository::try_default_branch::{
    spec_default_branch, spec_remote_in_hand, try_default_branch, BranchAnswers,
};
use crate::repository::upstream_status::{
    spec_upstream, upstream_status, upstream_view, UpstreamAnswers,
};
use crate::repository::working_tree_status::{
    spec_working_tree, working_tree_status, working_tree_view,
};
use crate::repository_status::{RepositoryStatus, RepositoryStatusView};
use crate::settings::Settings;
use crate::text::text_view;

verus! {

/// What the backend answered to the questions of one snapshot. A question
/// that was never asked has an answer here all the same; it is not read.
pub struct StatusAnswers {
    pub head: HeadAnswers,
    pub upstream: UpstreamAnswers,
    /// The paths that differ, with their status bits, or why they could
    /// not be listed.
    pub report: Result<Seq<(Option<String>, u32)>, Seq<char>>,
    pub branch: BranchAnswers,
}

/// The snapshot for the settings and the answers of the backend. HEAD,
/// its upstream and the working tree must be had, in this order, and the
/// first failure is the result; the default branch never fails.
pub open spec fn spec_status(
    named: Option<Seq<char>>,
    preferred_remote: Option<Seq<char>>,
    a: StatusAnswers,
) -> Result<RepositoryStatusView, RepoErrorView> {
    match spec_head(a.head) {
        Err(e) => Err(e),
        Ok(head) => match spec_upstream(head, a.upstream) {
            Err(e) => Err(e),
            Ok(upstream) => match spec_working_tree(a.report) {
                Err(e) => Err(e),
                Ok(working_tree) => Ok(
                    RepositoryStatusView {
                        head,
                        upstream,
                        working_tree,
                        default_branch: spec_default_branch(named, preferred_remote, a.branch),
                    },
                ),
            },
        },
    }
}

pub open spec fn status_view<T>(r: Result<(RepositoryStatus, T), RepoError>) -> Result<
    RepositoryStatusView,
    RepoErrorView,
> {
    match r {
        Ok(found) => Ok(found.0@),
        Err(e) => Err(e@),
    }
}

/// A snapshot fails only with a backend error. In a snapshot, a HEAD that
/// is on no born branch follows nothing, and the default branch is the
/// one of the settings where they name one.
pub proof fn lemma_snapshot_is_coherent(
    named: Option<Seq<char>>,
    preferred_remote: Option<Seq<char>>,
    a: StatusAnswers,
)
    ensures
        spec_status(named, preferred_remote, a) matches Err(e) ==> e is Backend,
        spec_status(named, preferred_remote, a) matches Ok(s) ==> {
            &&& !(s.head is Branch) ==> s.upstream is Untracked
            &&& named is Some ==> s.default_branch == named
        },
{
}

/// One snapshot of the repository, computed afresh: HEAD, its upstream,
/// the working tree and the default branch. Nothing is changed between
/// the readings. The remote is handed back where finding the default
/// branch connected one. The snapshot is the one that the answers of the
/// backend amount to.
pub fn status<'a>(repository: &'a Repository, settings: &Settings) -> (res: Result<
    (RepositoryStatus, Option<git2::Remote<'a>>),
    RepoError,
>)
    ensures
        exists|a: StatusAnswers|
            {
                &&& status_view(res) == #[trigger] spec_status(
                    text_view(settings.default_branch),
                    text_view(settings.default_remote),
                    a,
                )
                &&& res matches Ok(found) ==> found.1 is Some == spec_remote_in_hand(
                    text_view(settings.default_branch),
                    text_view(settings.default_remote),
                    a.branch,
                )
            },
{
    let ghost named = text_view(settings.default_branch);
    let ghost preferred = text_view(settings.default_remote);
    let found_head = head_status(repository);
    let ghost ha = choose|a: HeadAnswers| #[trigger] spec_head(a)
        == crate::head_status::result_view(found_head);
    let ghost mut a = StatusAnswers {
        head: ha,
        upstream: arbitrary(),
        report: Err(Seq::empty()),
        branch: arbitrary(),
    };
    let head = match found_head {
        Ok(head) => head,
        Err(e) => {
            proof {
                assert(status_view::<Option<git2::Remote<'a>>>(Err(e))
                    == spec_status(named, preferred, a));
            }
            return Err(e);
        },
    };
    let found_upstream = upstream_status(repository, &head);
    proof {
        let ua = choose|u: UpstreamAnswers| upstream_view(found_upstream)
            == #[trigger] spec_upstream(head@, u);
        a = StatusAnswers { upstream: ua, ..a };
    }
    let upstream = match found_upstream {
        Ok(upstream) => upstream,
        Err(e) => {
            proof {
                assert(status_view::<Option<git2::Remote<'a>>>(Err(e))
                    == spec_status(named, preferred, a));
            }
            return Err(e);
        },
    };
    let found_tree = working_tree_status(repository);
    proof {
        let report = choose|r: Result<Seq<(Option<String>, u32)>, Seq<char>>|
            working_tree_view(found_tree) == #[trigger] spec_working_tree(r);
        a = StatusAnswers { report, ..a };
    }
    let working_tree = match found_tree {
        Ok(working_tree) => working_tree,
        Err(e) => {
            proof {
                assert(status_view::<Option<git2::Remote<'a>>>(Err(e))
                    == spec_status(named, preferred, a));
            }
            return Err(e);
        },
    };
    let (default_branch, remote) = try_default_branch(repository, settings);
    proof {
        let ba = choose|b: BranchAnswers|
            {
                &&& text_view(default_branch) == #[trigger] spec_default_branch(named, preferred, b)
                &&& remote is Some == spec_remote_in_hand(named, preferred, b)
            };
        a = StatusAnswers { branch: ba, ..a };
    }
    let result = (RepositoryStatus { head, upstream, working_tree, default_branch }, remote);
    proof {
        assert(status_view(Ok(result)) == spec_status(named, preferred, a));
    }
    Ok(result)
}

} // verus!
