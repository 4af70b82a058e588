use vstd::prelude::*;
use crate::backend::{
    annotated_commit_id, checkout_commit, create_branch, error_message, find_commit,
    forced_checkout, reference_name, set_head,
};
use crate::error::{RepoError, RepoErrorView};
use crate::head_status::HeadStatus;
use crate::repository::switch::{checkout_failure, move_view, spec_move, MoveAnswers};
use crate::repository::Repository;
use crate::repository_status::RepositoryStatus;

verus! {

/// Starts the branch `branch_name` at the fetched commit: creates it,
/// checks the commit out over whatever the working tree holds, and puts
/// HEAD on the branch.
pub fn start_branch(
    repository: &Repository,
    branch_name: &str,
    fetch_commit: &git2::AnnotatedCommit<'_>,
) -> (res: Result<(), RepoError>)
    ensures
        exists|a: MoveAnswers| move_view(res) == #[trigger] spec_move(a),
{
    let ghost mut a = MoveAnswers { prepared: None, checkout: None, moved: None };
    let found = match find_commit(repository, annotated_commit_id(fetch_commit)) {
        Ok(commit) => match create_branch(repository, branch_name, &commit, false) {
            Ok(branch) => Ok((commit, branch)),
            Err(e) => Err(e),
        },
        Err(e) => Err(e),
    };
    let (commit, branch) = match found {
        Ok(found) => found,
        Err(e) => {
            let message = error_message(&e);
            proof {
                a = MoveAnswers { prepared: Some(message@), ..a };
                assert(move_view(Err(RepoError::Backend(message))) == spec_move(a));
            }
            return Err(RepoError::Backend(message));
        },
    };
    let mut options = forced_checkout();
    match checkout_commit(repository, &commit, &mut options) {
        Ok(()) => {},
        Err(e) => {
            let (error, failure) = checkout_failure(&e);
            proof {
                a = MoveAnswers { checkout: Some(failure@), ..a };
                assert(move_view(Err(error)) == spec_move(a));
            }
            return Err(error);
        },
    }
    let moved = match reference_name(&branch) {
        Ok(name) => set_head(repository, name.as_str()),
        Err(e) => Err(e),
    };
    match moved {
        Ok(()) => {
            proof {
                assert(move_view(Ok(())) == spec_move(a));
            }
            Ok(())
        },
        Err(e) => {
            let message = error_message(&e);
            proof {
                a = MoveAnswers { moved: Some(message@), ..a };
                assert(move_view(Err(RepoError::Backend(message))) == spec_move(a));
            }
            Err(RepoError::Backend(message))
        },
    }
}

/// The error for a branch that was to be started although HEAD is on no
/// unborn branch.
pub open spec fn not_unborn() -> RepoErrorView {
    RepoErrorView::Backend("HEAD is not on an unborn branch"@)
}

/// Gives the unborn branch under HEAD its first commit, the fetched one.
/// Where the status shows HEAD on no unborn branch there is nothing to
/// start, and the call fails before it touches the backend.
pub fn create_unborn(
    repository: &Repository,
    status: &RepositoryStatus,
    fetch_commit: git2::AnnotatedCommit<'_>,
) -> (res: Result<(), RepoError>)
    ensures
        !(status.head is Unborn) ==> (res matches Err(e) && e@ == not_unborn()),
        status.head is Unborn ==> exists|a: MoveAnswers| move_view(res) == #[trigger] spec_move(a),
{
    match &status.head {
        HeadStatus::Unborn { branch_name } => start_branch(repository, branch_name.as_str(), &fetch_commit),
        _ => Err(RepoError::from_message("HEAD is not on an unborn branch")),
    }
}

} // verus!
