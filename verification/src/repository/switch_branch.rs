use vstd::prelude::*;
use crate::backend::{error_message, find_local_branch};
use crate::error::RepoError;
use crate::repository::switch::{move_view, spec_move, switch, MoveAnswers};
use crate::repository::Repository;

verus! {

/// Switches to the local branch `branch_name`: the branch is looked up,
/// checked out safely, and HEAD is put on it.
pub fn switch_branch(repository: &Repository, branch_name: &str) -> (res: Result<(), RepoError>)
    ensures
        exists|a: MoveAnswers| move_view(res) == #[trigger] spec_move(a),
{
    match find_local_branch(repository, branch_name) {
        Ok(reference) => switch(repository, &reference),
        Err(e) => {
            let message = error_message(&e);
            proof {
                let a = MoveAnswers { prepared: Some(message@), checkout: None, moved: None };
                assert(move_view(Err(RepoError::Backend(message))) == spec_move(a));
            }
            Err(RepoError::Backend(message))
        },
    }
}

} // verus!
