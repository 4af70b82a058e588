//! What HEAD is: a branch with commits, a branch that has none yet, or a
//! commit with no branch at all.

use vstd::prelude::*;
use vstd::string::*;
use crate::error::{BackendErrorKind, RepoError, RepoErrorView};
use crate::text::{has_prefix, str_eq};

verus! {

#[derive(Debug, Clone, PartialEq, Eq)]
pub enum HeadStatus {
    /// HEAD names a branch that has no commit yet.
    Unborn { branch_name: String },
    /// HEAD points at a commit directly.
    Detached { commit_id: String },
    /// HEAD names a branch, and the branch has a commit.
    Branch { name: String },
}

pub enum HeadStatusView {
    Unborn { branch_name: Seq<char> },
    Detached { commit_id: Seq<char> },
    Branch { name: Seq<char> },
}

impl View for HeadStatus {
    type V = HeadStatusView;

    open spec fn view(&self) -> HeadStatusView {
        match self {
            HeadStatus::Unborn { branch_name } => HeadStatusView::Unborn { branch_name: branch_name@ },
            HeadStatus::Detached { commit_id } => HeadStatusView::Detached { commit_id: commit_id@ },
            HeadStatus::Branch { name } => HeadStatusView::Branch { name: name@ },
        }
    }
}

/// What became of following a symbolic HEAD to its commit.
#[derive(Debug, Clone, PartialEq, Eq)]
pub enum Resolution {
    /// The target exists.
    Resolved,
    /// The backend failed while following it.
    Failed { kind: BackendErrorKind, message: String },
}

/// What the backend shows of HEAD, before the library has judged it.
#[derive(Debug, Clone, PartialEq, Eq)]
pub enum HeadProbe {
    /// HEAD holds the name of another reference.
    Symbolic { target: String, resolution: Resolution },
    /// HEAD holds a commit, or nothing where it is corrupt.
    Direct { commit_id: Option<String> },
}

/// The prefix under which the backend keeps local branches.
pub open spec fn branch_prefix() -> Seq<char> {
    "refs/heads/"@
}

/// The name of the branch that the reference `refname` stands for: what
/// follows the branch prefix, or the whole name where it has none.
pub open spec fn spec_branch_name(refname: Seq<char>) -> Seq<char> {
    if branch_prefix().is_prefix_of(refname) {
        refname.skip(branch_prefix().len() as int)
    } else {
        refname
    }
}

/// The full reference name of the local branch `name`.
pub open spec fn spec_branch_ref(name: Seq<char>) -> Seq<char> {
    branch_prefix() + name
}

/// Whether a failure to follow HEAD means only that the branch has no
/// commit yet.
pub open spec fn means_unborn(kind: BackendErrorKind) -> bool {
    kind == BackendErrorKind::NotFound || kind == BackendErrorKind::UnbornBranch
}

/// The status that a probe of HEAD amounts to.
pub open spec fn spec_classify(
    symbolic: Option<Seq<char>>,
    resolved: bool,
    failure: BackendErrorKind,
    message: Seq<char>,
    commit_id: Option<Seq<char>>,
) -> Result<HeadStatusView, RepoErrorView> {
    match symbolic {
        Some(target) => if resolved {
            Ok(HeadStatusView::Branch { name: spec_branch_name(target) })
        } else if means_unborn(failure) {
            Ok(HeadStatusView::Unborn { branch_name: spec_branch_name(target) })
        } else {
            Err(RepoErrorView::Backend(message))
        },
        None => match commit_id {
            Some(id) => Ok(HeadStatusView::Detached { commit_id: id }),
            None => Err(RepoErrorView::Backend("HEAD points at nothing"@)),
        },
    }
}

pub open spec fn result_view(
    r: Result<HeadStatus, RepoError>,
) -> Result<HeadStatusView, RepoErrorView> {
    match r {
        Ok(h) => Ok(h@),
        Err(e) => Err(e@),
    }
}

impl HeadProbe {
    pub open spec fn classification(self) -> Result<HeadStatusView, RepoErrorView> {
        match self {
            HeadProbe::Symbolic { target, resolution } => match resolution {
                Resolution::Resolved => spec_classify(
                    Some(target@),
                    true,
                    BackendErrorKind::Other,
                    Seq::empty(),
                    None,
                ),
                Resolution::Failed { kind, message } => spec_classify(Some(target@), false, kind, message@, None),
            },
            HeadProbe::Direct { commit_id } => spec_classify(
                None,
                false,
                BackendErrorKind::Other,
                Seq::empty(),
                match commit_id {
                    Some(id) => Some(id@),
                    None => None,
                },
            ),
        }
    }
}

/// The branch that HEAD names, born or not; nothing where HEAD is detached.
pub open spec fn branch_of_view(head: HeadStatusView) -> Option<Seq<char>> {
    match head {
        HeadStatusView::Unborn { branch_name } => Some(branch_name),
        HeadStatusView::Branch { name } => Some(name),
        HeadStatusView::Detached { .. } => None,
    }
}

/// The name of the branch behind a reference name.
pub fn branch_name(refname: &str) -> (res: String)
    ensures
        res@ == spec_branch_name(refname@),
{
    let prefix = "refs/heads/";
    if has_prefix(refname, prefix) {
        let p = prefix.unicode_len();
        let n = refname.unicode_len();
        let rest = refname.substring_char(p, n);
        assert(refname@.subrange(p as int, n as int) =~= refname@.skip(p as int));
        String::from_str(rest)
    } else {
        String::from_str(refname)
    }
}

/// The full reference name of a local branch.
pub fn branch_ref(name: &str) -> (res: String)
    ensures
        res@ == spec_branch_ref(name@),
{
    String::from_str("refs/heads/").concat(name)
}

/// Judges a probe of HEAD. A symbolic HEAD is a branch where its target
/// exists and an unborn branch where the target is merely missing; a direct
/// HEAD is detached. Anything else is a backend error.
pub fn classify_head(probe: HeadProbe) -> (res: Result<HeadStatus, RepoError>)
    ensures
        result_view(res) == probe.classification(),
{
    match probe {
        HeadProbe::Symbolic { target, resolution } => {
            let name = branch_name(target.as_str());
            match resolution {
                Resolution::Resolved => Ok(HeadStatus::Branch { name }),
                Resolution::Failed { kind, message } => match kind {
                    BackendErrorKind::NotFound => Ok(HeadStatus::Unborn { branch_name: name }),
                    BackendErrorKind::UnbornBranch => Ok(HeadStatus::Unborn { branch_name: name }),
                    _ => Err(RepoError::Backend(message)),
                },
            }
        },
        HeadProbe::Direct { commit_id } => match commit_id {
            Some(id) => Ok(HeadStatus::Detached { commit_id: id }),
            None => Err(RepoError::from_message("HEAD points at nothing")),
        },
    }
}

impl HeadStatus {
    pub fn is_unborn(&self) -> (res: bool)
        ensures
            res == (self is Unborn),
    {
        match self {
            HeadStatus::Unborn { .. } => true,
            _ => false,
        }
    }

    pub fn is_detached(&self) -> (res: bool)
        ensures
            res == (self is Detached),
    {
        match self {
            HeadStatus::Detached { .. } => true,
            _ => false,
        }
    }

    /// Whether HEAD names the branch `name`.
    pub fn is_on(&self, name: &str) -> (res: bool)
        ensures
            res == (branch_of_view(self@) == Some(name@)),
    {
        match self {
            HeadStatus::Unborn { branch_name } => str_eq(branch_name.as_str(), name),
            HeadStatus::Branch { name: own } => str_eq(own.as_str(), name),
            HeadStatus::Detached { .. } => false,
        }
    }
}

} // verus!
