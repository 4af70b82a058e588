use vstd::prelude::*;
use crate::backend::{error_message, statuses};
use crate::error::{RepoError, RepoErrorView};
use crate::repository::Repository;
use crate::working_tree_status::{spec_entries, StatusFlags, WorkingTreeStatus};

verus! {

/// The working tree status for what the backend reported, or the backend
/// error for the reason why it reported nothing.
pub open spec fn spec_working_tree(report: Result<Seq<(Option<String>, u32)>, Seq<char>>) -> Result<
    Seq<(Seq<char>, StatusFlags)>,
    RepoErrorView,
> {
    match report {
        Ok(raw) => Ok(spec_entries(raw)),
        Err(message) => Err(RepoErrorView::Backend(message)),
    }
}

pub open spec fn working_tree_view(r: Result<WorkingTreeStatus, RepoError>) -> Result<
    Seq<(Seq<char>, StatusFlags)>,
    RepoErrorView,
> {
    match r {
        Ok(status) => Ok(status@),
        Err(e) => Err(e@),
    }
}

/// The paths that differ between HEAD, the index and the working tree, as
/// of now. Untracked files count; submodules do not. The status holds the
/// paths that the backend reported with a flag, in its order.
pub fn working_tree_status(repository: &Repository) -> (res: Result<WorkingTreeStatus, RepoError>)
    ensures
        exists|report: Result<Seq<(Option<String>, u32)>, Seq<char>>|
            working_tree_view(res) == #[trigger] spec_working_tree(report),
{
    match statuses(repository) {
        Ok(report) => {
            let ghost raw = report@;
            let status = WorkingTreeStatus::from_report(report);
            proof {
                assert(working_tree_view(Ok(status)) == spec_working_tree(Ok(raw)));
            }
            Ok(status)
        },
        Err(e) => {
            let message = error_message(&e);
            proof {
                assert(working_tree_view(Err(RepoError::Backend(message)))
                    == spec_working_tree(Err(message@)));
            }
            Err(RepoError::Backend(message))
        },
    }
}

} // verus!
