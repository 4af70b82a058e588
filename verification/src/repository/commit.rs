//! Committing: what is staged becomes a commit, unless there is nothing new.

use vstd::prelude::*;
use vstd::string::*;
use crate::backend::{
    commit_id, create_branch, create_commit, find_commit, find_tree, has_nul, reference_name,
    set_head, signature_now,
};
use crate::error::{RepoError, RepoErrorView};
use crate::repository::{backend_error, Repository};
use crate::repository::find_last_commit::find_last_commit;
use crate::settings::Defaults;

verus! {

/// What a commit request comes to.
#[derive(Debug, Clone, Copy, PartialEq, Eq, Structural)]
pub enum CommitPlan {
    /// There is no commit yet: make the first one and start the branch.
    Initial,
    /// Nothing was staged: the last commit stands.
    Unchanged,
    /// Files were staged: commit them on top of the last commit.
    Staged,
}

/// The plan for a repository that has a last commit or not, and a staging
/// message that is empty where nothing was staged.
pub open spec fn spec_plan(has_last_commit: bool, message: Seq<char>) -> CommitPlan {
    if !has_last_commit {
        CommitPlan::Initial
    } else if message.len() == 0 {
        CommitPlan::Unchanged
    } else {
        CommitPlan::Staged
    }
}

pub fn plan(has_last_commit: bool, message: &str) -> (res: CommitPlan)
    ensures
        res == spec_plan(has_last_commit, message@),
{
    if !has_last_commit {
        CommitPlan::Initial
    } else if message.is_empty() {
        CommitPlan::Unchanged
    } else {
        CommitPlan::Staged
    }
}

/// The message of the commit that a plan makes: `initial` for the first
/// commit, the staging message after that.
pub open spec fn spec_commit_message(plan: CommitPlan, message: Seq<char>) -> Seq<char> {
    if plan == CommitPlan::Initial {
        "initial"@
    } else {
        message
    }
}

pub fn commit_message(plan: CommitPlan, message: String) -> (res: String)
    ensures
        res@ == spec_commit_message(plan, message@),
{
    match plan {
        CommitPlan::Initial => String::from_str("initial"),
        _ => message,
    }
}

/// What the backend answered to the questions of one commit. A question
/// that was never asked has an answer here all the same; it is not read.
pub struct CommitAnswers {
    /// The staging message, or why staging failed.
    pub staged: Result<Seq<char>, RepoErrorView>,
    /// Why no signature could be made, where none could.
    pub signed: Option<RepoErrorView>,
    /// Why the staged tree could not be found, where it could not.
    pub tree: Option<RepoErrorView>,
    /// The id of the last commit, where there is one.
    pub last: Option<git2::Oid>,
    /// The id of the commit that was made, or why none was made.
    pub created: Result<git2::Oid, RepoErrorView>,
    /// Why the default branch could not be started at the first commit,
    /// where it could not.
    pub started: Option<RepoErrorView>,
}

/// The failures that each step can end in.
pub open spec fn plausible(a: CommitAnswers) -> bool {
    &&& a.staged matches Err(e) ==> e is Backend
    &&& a.signed matches Some(e) ==> e is Backend
    &&& a.tree matches Some(e) ==> e is Backend
    &&& a.created matches Err(e) ==> e is Backend
    &&& a.started matches Some(e) ==> e is Backend
}

/// The commit protocol: what a commit returns for the answers of the
/// backend. Staging, signature and tree must be had first. Then the plan
/// decides: with a last commit and nothing staged, that commit's id is the
/// result and nothing is made; with a last commit and something staged, a
/// commit is made on top of it; without a last commit, the first commit is
/// made and the default branch is started at it.
pub open spec fn spec_commit(a: CommitAnswers) -> Result<git2::Oid, RepoErrorView> {
    match a.staged {
        Err(e) => Err(e),
        Ok(message) => if a.signed is Some {
            Err(a.signed->0)
        } else if a.tree is Some {
            Err(a.tree->0)
        } else {
            match spec_plan(a.last is Some, message) {
                CommitPlan::Unchanged => Ok(a.last->0),
                CommitPlan::Staged => a.created,
                CommitPlan::Initial => match a.created {
                    Err(e) => Err(e),
                    Ok(id) => if a.started is Some {
                        Err(a.started->0)
                    } else {
                        Ok(id)
                    },
                },
            }
        },
    }
}

pub open spec fn commit_view(r: Result<git2::Oid, RepoError>) -> Result<git2::Oid, RepoErrorView> {
    match r {
        Ok(id) => Ok(id),
        Err(e) => Err(e@),
    }
}

/// Where there is a last commit and nothing was staged, no commit is
/// made: the result is the id of the last commit, whatever making one
/// would have come to.
pub proof fn lemma_nothing_staged_makes_no_commit(
    a: CommitAnswers,
    created: Result<git2::Oid, RepoErrorView>,
)
    requires
        a.staged matches Ok(message) && message.len() == 0,
        a.signed is None,
        a.tree is None,
        a.last is Some,
    ensures
        spec_commit(a) == Ok::<git2::Oid, RepoErrorView>(a.last->0),
        spec_commit(CommitAnswers { created, ..a }) == spec_commit(a),
{
}

/// A commit fails only with a backend error.
pub proof fn lemma_commit_fails_with_backend_errors(a: CommitAnswers)
    requires
        plausible(a),
        spec_commit(a) is Err,
    ensures
        spec_commit(a)->Err_0 is Backend,
{
}

/// Starts the branch `branch` at the commit `id` and puts HEAD on it. It
/// fails under a name that the backend cannot take.
fn start_at(repository: &Repository, branch: &str, id: git2::Oid) -> (res: Result<(), RepoError>)
    ensures
        has_nul(branch@) ==> res is Err,
        res matches Err(e) ==> e is Backend,
{
    let first = match find_commit(repository, id) {
        Ok(first) => first,
        Err(e) => return Err(backend_error(&e)),
    };
    let reference = match create_branch(repository, branch, &first, true) {
        Ok(reference) => reference,
        Err(e) => return Err(backend_error(&e)),
    };
    let name = match reference_name(&reference) {
        Ok(name) => name,
        Err(e) => return Err(backend_error(&e)),
    };
    match set_head(repository, name.as_str()) {
        Ok(()) => Ok(()),
        Err(e) => Err(backend_error(&e)),
    }
}

/// Stages what is new and commits it. The first commit of a repository is
/// made whatever was staged, starts the default branch and puts HEAD on
/// it; later commits are made only where something was staged, and the id
/// of the last commit is returned where nothing was. The result is what
/// the protocol yields for the answers of the backend.
pub fn commit(repository: &Repository) -> (res: Result<git2::Oid, RepoError>)
    ensures
        exists|a: CommitAnswers| plausible(a) && commit_view(res) == #[trigger] spec_commit(a),
{
    let defaults = Defaults::new();
    let ghost mut a = CommitAnswers {
        staged: Err(RepoErrorView::Backend(Seq::empty())),
        signed: None,
        tree: None,
        last: None,
        created: Err(RepoErrorView::Backend(Seq::empty())),
        started: None,
    };
    let (tree_id, message) = match crate::repository::add::add(repository) {
        Ok(staged) => staged,
        Err(e) => {
            proof {
                a = CommitAnswers { staged: Err(e@), ..a };
                assert(commit_view(Err(e)) == spec_commit(a));
            }
            return Err(e);
        },
    };
    proof {
        a = CommitAnswers { staged: Ok(message@), ..a };
    }
    let signature = match signature_now(defaults.identity.name.as_str(), defaults.identity.email.as_str()) {
        Ok(signature) => signature,
        Err(e) => {
            let error = backend_error(&e);
            proof {
                a = CommitAnswers { signed: Some(error@), ..a };
                assert(commit_view(Err(error)) == spec_commit(a));
            }
            return Err(error);
        },
    };
    let tree = match find_tree(repository, tree_id) {
        Ok(tree) => tree,
        Err(e) => {
            let error = backend_error(&e);
            proof {
                a = CommitAnswers { tree: Some(error@), ..a };
                assert(commit_view(Err(error)) == spec_commit(a));
            }
            return Err(error);
        },
    };
    match find_last_commit(repository) {
        Ok(last) => {
            let last_id = commit_id(&last);
            proof {
                a = CommitAnswers { last: Some(last_id), ..a };
            }
            match plan(true, message.as_str()) {
                CommitPlan::Unchanged => {
                    proof {
                        assert(commit_view(Ok(last_id)) == spec_commit(a));
                    }
                    Ok(last_id)
                },
                chosen => {
                    let text = commit_message(chosen, message);
                    match create_commit(repository, Some("HEAD"), &signature, text.as_str(), &tree, Some(&last)) {
                        Ok(id) => {
                            proof {
                                a = CommitAnswers { created: Ok(id), ..a };
                                assert(commit_view(Ok(id)) == spec_commit(a));
                            }
                            Ok(id)
                        },
                        Err(e) => {
                            let error = backend_error(&e);
                            proof {
                                a = CommitAnswers { created: Err(error@), ..a };
                                assert(commit_view(Err(error)) == spec_commit(a));
                            }
                            Err(error)
                        },
                    }
                },
            }
        },
        Err(_) => {
            let text = commit_message(plan(false, message.as_str()), message);
            let id = match create_commit(repository, None, &signature, text.as_str(), &tree, None) {
                Ok(id) => id,
                Err(e) => {
                    let error = backend_error(&e);
                    proof {
                        a = CommitAnswers { created: Err(error@), ..a };
                        assert(commit_view(Err(error)) == spec_commit(a));
                    }
                    return Err(error);
                },
            };
            proof {
                a = CommitAnswers { created: Ok(id), ..a };
            }
            match start_at(repository, defaults.branch.as_str(), id) {
                Ok(()) => {
                    proof {
                        assert(commit_view(Ok(id)) == spec_commit(a));
                    }
                    Ok(id)
                },
                Err(e) => {
                    proof {
                        a = CommitAnswers { started: Some(e@), ..a };
                        assert(commit_view(Err(e)) == spec_commit(a));
                    }
                    Err(e)
                },
            }
        },
    }
}

} // verus!
