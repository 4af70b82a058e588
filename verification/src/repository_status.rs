//! One snapshot of a repository: where HEAD is, how it relates to its
//! upstream, what the working tree holds, and the default branch if known.
//! A snapshot is computed afresh on every request and never cached.

use vstd::prelude::*;
use crate::head_status::{HeadStatus, HeadStatusView};
use crate::repository::upstream_status::{UpstreamStatus, UpstreamStatusView};
use crate::text::text_view;
use crate::working_tree_status::{StatusFlags, WorkingTreeStatus};

verus! {

#[derive(Debug, Clone, PartialEq, Eq)]
pub struct RepositoryStatus {
    pub head: HeadStatus,
    pub upstream: UpstreamStatus,
    pub working_tree: WorkingTreeStatus,
    pub default_branch: Option<String>,
}

/// The mathematical value of a snapshot.
pub struct RepositoryStatusView {
    pub head: HeadStatusView,
    pub upstream: UpstreamStatusView,
    pub working_tree: Seq<(Seq<char>, StatusFlags)>,
    pub default_branch: Option<Seq<char>>,
}

impl View for RepositoryStatus {
    type V = RepositoryStatusView;

    open spec fn view(&self) -> RepositoryStatusView {
        RepositoryStatusView {
            head: self.head@,
            upstream: self.upstream@,
            working_tree: self.working_tree@,
            default_branch: text_view(self.default_branch),
        }
    }
}

} // verus!
