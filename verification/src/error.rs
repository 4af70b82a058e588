//! The error taxonomy. Every failure is returned typed to the caller.

use vstd::prelude::*;
use vstd::string::*;

verus! {

/// What a backend failure was about, as far as the library acts on it.
#[derive(Debug, Clone, Copy, PartialEq, Eq, Structural)]
pub enum BackendErrorKind {
    /// A requested object or reference does not exist.
    NotFound,
    /// HEAD names a branch that has no commit yet.
    UnbornBranch,
    /// Local changes would be overwritten by a checkout.
    Conflict,
    /// The remote refused the credentials.
    Auth,
    /// Anything else: I/O, corrupt data, an invalid name.
    Other,
}

#[derive(Debug, Clone, PartialEq, Eq)]
pub enum RepoError {
    /// The backend failed: I/O, a corrupt reference, a missing object.
    Backend(String),
    /// Every authentication strategy was tried and refused.
    AuthExhausted,
    /// No remote is configured.
    NoRemote,
    /// More than one remote is configured and none was chosen.
    AmbiguousRemote,
    /// Neither the settings nor the remote name a default branch.
    UnknownDefaultBranch,
    /// HEAD is on another branch and switching was not allowed.
    NotOnDefaultBranch,
    /// HEAD is detached, so there is no branch to switch from.
    DetachedHead,
    /// The fetch brought no reference marked for merging.
    NoMergeTarget,
    /// Local and remote histories have diverged.
    CannotFastForward,
    /// The transport failed while fetching; the cause is attached.
    FetchFailed(String),
    /// The transport failed while pushing; the cause is attached.
    PushFailed(String),
    /// Uncommitted local changes block the checkout.
    CheckoutConflict,
}

impl RepoError {
    /// A backend error that carries `message`.
    pub fn from_message(message: &str) -> (res: RepoError)
        ensures
            res matches RepoError::Backend(m) && m@ == message@,
    {
        RepoError::Backend(String::from_str(message))
    }

    /// The text a caller shows for the error.
    pub open spec fn spec_message(self) -> Seq<char> {
        match self {
            RepoError::Backend(m) => m@,
            RepoError::AuthExhausted => "all authentication strategies were refused"@,
            RepoError::NoRemote => "no remote is configured"@,
            RepoError::AmbiguousRemote => "more than one remote is configured"@,
            RepoError::UnknownDefaultBranch => "the default branch is unknown"@,
            RepoError::NotOnDefaultBranch => "not on the default branch"@,
            RepoError::DetachedHead => "HEAD is detached"@,
            RepoError::NoMergeTarget => "nothing to merge was fetched"@,
            RepoError::CannotFastForward => "cannot fast-forward"@,
            RepoError::FetchFailed(m) => "fetch failed: "@ + m@,
            RepoError::PushFailed(m) => "push failed: "@ + m@,
            RepoError::CheckoutConflict => "local changes block the checkout"@,
        }
    }

    pub fn message(&self) -> (res: String)
        ensures
            res@ == self.spec_message(),
    {
        match self {
            RepoError::Backend(m) => m.clone(),
            RepoError::AuthExhausted => String::from_str("all authentication strategies were refused"),
            RepoError::NoRemote => String::from_str("no remote is configured"),
            RepoError::AmbiguousRemote => String::from_str("more than one remote is configured"),
            RepoError::UnknownDefaultBranch => String::from_str("the default branch is unknown"),
            RepoError::NotOnDefaultBranch => String::from_str("not on the default branch"),
            RepoError::DetachedHead => String::from_str("HEAD is detached"),
            RepoError::NoMergeTarget => String::from_str("nothing to merge was fetched"),
            RepoError::CannotFastForward => String::from_str("cannot fast-forward"),
            RepoError::FetchFailed(m) => String::from_str("fetch failed: ").concat(m.as_str()),
            RepoError::PushFailed(m) => String::from_str("push failed: ").concat(m.as_str()),
            RepoError::CheckoutConflict => String::from_str("local changes block the checkout"),
        }
    }

    /// The error for a failed checkout: a conflict with local changes keeps
    /// its own kind, everything else is a backend error that carries the
    /// backend's message.
    pub open spec fn spec_from_backend(
        kind: BackendErrorKind,
        message: Seq<char>,
    ) -> RepoErrorView {
        if kind == BackendErrorKind::Conflict {
            RepoErrorView::CheckoutConflict
        } else {
            RepoErrorView::Backend(message)
        }
    }

    pub fn from_backend(kind: BackendErrorKind, message: String) -> (res: RepoError)
        ensures
            res@ == RepoError::spec_from_backend(kind, message@),
    {
        match kind {
            BackendErrorKind::Conflict => RepoError::CheckoutConflict,
            _ => RepoError::Backend(message),
        }
    }
}

/// The mathematical value of an [`RepoError`]: the kind, and the message as a
/// sequence of characters.
pub enum RepoErrorView {
    Backend(Seq<char>),
    AuthExhausted,
    NoRemote,
    AmbiguousRemote,
    UnknownDefaultBranch,
    NotOnDefaultBranch,
    DetachedHead,
    NoMergeTarget,
    CannotFastForward,
    FetchFailed(Seq<char>),
    PushFailed(Seq<char>),
    CheckoutConflict,
}

impl View for RepoError {
    type V = RepoErrorView;

    open spec fn view(&self) -> RepoErrorView {
        match self {
            RepoError::Backend(m) => RepoErrorView::Backend(m@),
            RepoError::AuthExhausted => RepoErrorView::AuthExhausted,
            RepoError::NoRemote => RepoErrorView::NoRemote,
            RepoError::AmbiguousRemote => RepoErrorView::AmbiguousRemote,
            RepoError::UnknownDefaultBranch => RepoErrorView::UnknownDefaultBranch,
            RepoError::NotOnDefaultBranch => RepoErrorView::NotOnDefaultBranch,
            RepoError::DetachedHead => RepoErrorView::DetachedHead,
            RepoError::NoMergeTarget => RepoErrorView::NoMergeTarget,
            RepoError::CannotFastForward => RepoErrorView::CannotFastForward,
            RepoError::FetchFailed(m) => RepoErrorView::FetchFailed(m@),
            RepoError::PushFailed(m) => RepoErrorView::PushFailed(m@),
            RepoError::CheckoutConflict => RepoErrorView::CheckoutConflict,
        }
    }
}

/// What the backend told of one failure: its kind, whether it concerned a
/// reference, and its message.
pub struct BackendFailure {
    pub kind: BackendErrorKind,
    pub in_reference: bool,
    pub message: Seq<char>,
}

} // verus!
