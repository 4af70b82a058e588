//! Bringing the working tree and HEAD to another commit.

use vstd::prelude::*;
use crate::backend::{
    checkout_commit, error_kind, error_message, reference_name, reference_peel_to_commit,
    safe_checkout, set_head,
};
use crate::error::{BackendErrorKind, BackendFailure, RepoError, RepoErrorView};
use crate::repository::Repository;

verus! {

/// What the backend answered while a branch or HEAD was brought to a
/// commit. A question that was never asked has an answer here all the
/// same; it is not read.
pub struct MoveAnswers {
    /// Why the move could not be prepared, where it could not: the commit
    /// or the reference was not to be had.
    pub prepared: Option<Seq<char>>,
    /// How the checkout failed, where it did.
    pub checkout: Option<BackendFailure>,
    /// Why the reference could not be moved after the checkout, where it
    /// could not.
    pub moved: Option<Seq<char>>,
}

/// The protocol of a move: the move is prepared, the commit is checked
/// out, and only then the reference is moved. A checkout that fails for a
/// conflict with local changes is a checkout conflict; every other
/// failure is a backend error.
pub open spec fn spec_move(a: MoveAnswers) -> Result<(), RepoErrorView> {
    if a.prepared is Some {
        Err(RepoErrorView::Backend(a.prepared->0))
    } else if a.checkout is Some {
        Err(RepoError::spec_from_backend(a.checkout->0.kind, a.checkout->0.message))
    } else if a.moved is Some {
        Err(RepoErrorView::Backend(a.moved->0))
    } else {
        Ok(())
    }
}

pub open spec fn move_view(r: Result<(), RepoError>) -> Result<(), RepoErrorView> {
    match r {
        Ok(_) => Ok(()),
        Err(e) => Err(e@),
    }
}

/// A move ends in a checkout conflict exactly where the checkout found
/// local changes in its way, and then the reference is not moved: the
/// result does not depend on what moving it would have come to.
pub proof fn lemma_conflict_moves_nothing(a: MoveAnswers, moved: Option<Seq<char>>)
    ensures
        spec_move(a) == Err::<(), RepoErrorView>(RepoErrorView::CheckoutConflict)
            <==> (a.prepared is None
            && a.checkout is Some && a.checkout->0.kind == BackendErrorKind::Conflict),
        (a.prepared is Some || a.checkout is Some)
            ==> spec_move(MoveAnswers { moved, ..a }) == spec_move(a),
        spec_move(a) matches Err(e) ==> e is Backend || e is CheckoutConflict,
{
}

/// The failure of a checkout as the backend told it.
pub fn checkout_failure(error: &git2::Error) -> (res: (RepoError, Ghost<BackendFailure>))
    ensures
        res.0@ == RepoError::spec_from_backend(res.1@.kind, res.1@.message),
{
    let kind = error_kind(error);
    let message = error_message(error);
    let ghost failure = BackendFailure { kind, in_reference: false, message: message@ };
    (RepoError::from_backend(kind, message), Ghost(failure))
}

/// Checks out what `reference` leads to and puts HEAD on it. The checkout
/// is safe: it fails with a conflict rather than overwrite local changes,
/// and HEAD then stays where it was.
pub fn switch(
    repository: &Repository,
    reference: &git2::Reference<'_>,
) -> (res: Result<(), RepoError>)
    ensures
        exists|a: MoveAnswers| move_view(res) == #[trigger] spec_move(a),
{
    let ghost mut a = MoveAnswers { prepared: None, checkout: None, moved: None };
    let commit = match reference_peel_to_commit(reference) {
        Ok(commit) => commit,
        Err(e) => {
            let message = error_message(&e);
            proof {
                a = MoveAnswers { prepared: Some(message@), ..a };
                assert(move_view(Err(RepoError::Backend(message))) == spec_move(a));
            }
            return Err(RepoError::Backend(message));
        },
    };
    let mut options = safe_checkout();
    match checkout_commit(repository, &commit, &mut options) {
        Ok(()) => {},
        Err(e) => {
            let (error, failure) = checkout_failure(&e);
            proof {
                a = MoveAnswers { checkout: Some(failure@), ..a };
                assert(move_view(Err(error)) == spec_move(a));
            }
            return Err(error);
        },
    }
    let moved = match reference_name(reference) {
        Ok(name) => set_head(repository, name.as_str()),
        Err(e) => Err(e),
    };
    match moved {
        Ok(()) => {
            proof {
                assert(move_view(Ok(())) == spec_move(a));
            }
            Ok(())
        },
        Err(e) => {
            let message = error_message(&e);
            proof {
                a = MoveAnswers { moved: Some(message@), ..a };
                assert(move_view(Err(RepoError::Backend(message))) == spec_move(a));
            }
            Err(RepoError::Backend(message))
        },
    }
}

} // verus!
