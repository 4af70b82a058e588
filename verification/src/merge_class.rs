//! The four ways in which a fetched history can relate to the local one.
//! The relation is decided once per fetch and dispatched exhaustively.

use vstd::prelude::*;

verus! {

/// What the backend's ancestry analysis found, one flag for each finding.
#[derive(Debug, Clone, Copy, PartialEq, Eq, Structural)]
pub struct Analysis {
    /// The fetched tip is reachable from the local tip.
    pub up_to_date: bool,
    /// The local branch has no commit yet.
    pub unborn: bool,
    /// The fetched tip descends from the local tip.
    pub fast_forward: bool,
    /// Both sides have commits that the other lacks.
    pub normal: bool,
}

#[derive(Debug, Clone, Copy, PartialEq, Eq, Structural)]
pub enum MergeClass {
    /// Nothing to do: the local tip already holds the fetched one.
    UpToDate,
    /// The local branch is created at the fetched tip.
    Unborn,
    /// The local branch moves forward to the fetched tip.
    FastForward,
    /// Neither tip is an ancestor of the other.
    Diverged,
}

/// The class of an analysis. The backend reports an unborn branch as a
/// fast-forward as well, so the unborn flag is read before that one; an
/// analysis with no usable flag counts as diverged.
pub open spec fn spec_classify(a: Analysis) -> MergeClass {
    if a.up_to_date {
        MergeClass::UpToDate
    } else if a.unborn {
        MergeClass::Unborn
    } else if a.fast_forward {
        MergeClass::FastForward
    } else {
        MergeClass::Diverged
    }
}

pub fn classify(analysis: Analysis) -> (res: MergeClass)
    ensures
        res == spec_classify(analysis),
{
    if analysis.up_to_date {
        MergeClass::UpToDate
    } else if analysis.unborn {
        MergeClass::Unborn
    } else if analysis.fast_forward {
        MergeClass::FastForward
    } else {
        MergeClass::Diverged
    }
}

impl MergeClass {
    /// Whether the local history can take the fetched one without a merge.
    pub open spec fn spec_converges(self) -> bool {
        self != MergeClass::Diverged
    }

    pub fn converges(self) -> (res: bool)
        ensures
            res == self.spec_converges(),
    {
        match self {
            MergeClass::Diverged => false,
            _ => true,
        }
    }
}

/// What the local branch has to undergo to take a fetched history.
#[derive(Debug, Clone, Copy, PartialEq, Eq, Structural)]
pub enum MergeAction {
    /// Nothing is touched.
    Nothing,
    /// The branch is created at the fetched tip and checked out.
    StartBranch,
    /// The branch is moved forward to the fetched tip.
    MoveForward,
}

impl MergeClass {
    /// The action that a class calls for. An up-to-date branch is left
    /// alone, and so are diverged histories: the library never merges.
    pub open spec fn spec_action(self) -> MergeAction {
        match self {
            MergeClass::UpToDate => MergeAction::Nothing,
            MergeClass::Unborn => MergeAction::StartBranch,
            MergeClass::FastForward => MergeAction::MoveForward,
            MergeClass::Diverged => MergeAction::Nothing,
        }
    }

    pub fn action(self) -> (res: MergeAction)
        ensures
            res == self.spec_action(),
    {
        match self {
            MergeClass::UpToDate => MergeAction::Nothing,
            MergeClass::Unborn => MergeAction::StartBranch,
            MergeClass::FastForward => MergeAction::MoveForward,
            MergeClass::Diverged => MergeAction::Nothing,
        }
    }
}

/// The classes are decided by the findings in a fixed order, so that every
/// analysis has exactly one class: up to date where the fetched tip is
/// already held; else unborn where the local branch has no commit; else a
/// fast-forward where the fetched tip descends from the local one; and
/// diverged in every other case.
pub proof fn lemma_classes_are_exhaustive(a: Analysis)
    ensures
        spec_classify(a) == MergeClass::UpToDate <==> a.up_to_date,
        spec_classify(a) == MergeClass::Unborn <==> !a.up_to_date && a.unborn,
        spec_classify(a) == MergeClass::FastForward
            <==> !a.up_to_date && !a.unborn && a.fast_forward,
        spec_classify(a) == MergeClass::Diverged <==> !a.up_to_date && !a.unborn && !a.fast_forward,
{
}

/// Only an unborn branch and a branch that is behind are ever touched: a
/// branch that is up to date stays as it is, however often it is asked.
pub proof fn lemma_up_to_date_changes_nothing(a: Analysis)
    ensures
        a.up_to_date ==> spec_classify(a).spec_action() == MergeAction::Nothing,
        spec_classify(a).spec_action() != MergeAction::Nothing
            ==> spec_classify(a).spec_converges(),
{
}

} // verus!
