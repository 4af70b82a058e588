use vstd::prelude::*;
use crate::backend::{
    annotated_commit_id, checkout_commit, error_message, find_commit, reference_set_target,
    repository_head, safe_checkout,
};
use crate::error::RepoError;
use crate::repository::switch::{checkout_failure, move_view, spec_move, MoveAnswers};
use crate::repository::Repository;

verus! {

/// Moves the branch under HEAD forward to the fetched commit. The working
/// tree is brought along first, with a safe checkout: where local changes
/// would be lost the call fails with a conflict and the branch stays where
/// it was.
pub fn fast_forward(
    repository: &Repository,
    fetch_commit: git2::AnnotatedCommit<'_>,
) -> (res: Result<(), RepoError>)
    ensures
        exists|a: MoveAnswers| move_view(res) == #[trigger] spec_move(a),
{
    let ghost mut a = MoveAnswers { prepared: None, checkout: None, moved: None };
    let id = annotated_commit_id(&fetch_commit);
    let found = match repository_head(repository) {
        Ok(head) => match find_commit(repository, id) {
            Ok(commit) => Ok((head, commit)),
            Err(e) => Err(e),
        },
        Err(e) => Err(e),
    };
    let (mut head, commit) = match found {
        Ok(found) => found,
        Err(e) => {
            let message = error_message(&e);
            proof {
                a = MoveAnswers { prepared: Some(message@), ..a };
                assert(move_view(Err(RepoError::Backend(message))) == spec_move(a));
            }
            return Err(RepoError::Backend(message));
        },
    };
    let mut options = safe_checkout();
    match checkout_commit(repository, &commit, &mut options) {
        Ok(()) => {},
        Err(e) => {
            let (error, failure) = checkout_failure(&e);
            proof {
                a = MoveAnswers { checkout: Some(failure@), ..a };
                assert(move_view(Err(error)) == spec_move(a));
            }
            return Err(error);
        },
    }
    match reference_set_target(&mut head, id, "fast-forward") {
        Ok(_) => {
            proof {
                assert(move_view(Ok(())) == spec_move(a));
            }
            Ok(())
        },
        Err(e) => {
            let message = error_message(&e);
            proof {
                a = MoveAnswers { moved: Some(message@), ..a };
                assert(move_view(Err(RepoError::Backend(message))) == spec_move(a));
            }
            Err(RepoError::Backend(message))
        },
    }
}

} // verus!
