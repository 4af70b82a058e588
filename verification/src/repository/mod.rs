//! A repository and the operations that reconcile it with its remote.

pub mod add;
pub mod clone;
pub mod commit;
pub mod create_branch;
pub mod create_unborn;
pub mod default_branch_for_remote;
pub mod default_remote;
pub mod fast_forward;
pub mod fetch;
pub mod find_last_commit;
pub mod head_branch;
pub mod head_status;
pub mod headers;
pub mod init;
pub mod init_bare;
pub mod open;
pub mod pull;
pub mod push;
pub mod resolve;
pub mod status;
pub mod switch;
pub mod switch_branch;
pub mod sync;
pub mod try_default_branch;
pub mod try_open;
pub mod upstream_status;
pub mod working_tree_status;

pub use pull::PullOutcome;
pub use upstream_status::UpstreamStatus;

use vstd::prelude::*;
use vstd::string::*;
use crate::backend::{
    config_get_string, config_set_str, config_snapshot, error_message, has_nul, remote_create,
    remote_set_url, remote_url, repository_config,
};
use crate::credentials_state::CredentialsState;
use crate::error::{BackendFailure, RepoError, RepoErrorView};
use crate::head_status::{HeadStatus, HeadStatusView};
use crate::origin::{spec_stored, Origin, OriginView};
use crate::progress::ignore_progress;
use crate::repository::default_remote::RemoteAnswers;
use crate::repository_status::RepositoryStatus;
use crate::resolve::Resolve;
use crate::settings::{Defaults, Settings};
use crate::sync::Sync;
use crate::text::text_view;
use crate::working_tree_status::WorkingTreeStatus;

verus! {

/// A repository on disk. The handle is the backend's own; nothing in the
/// library looks inside it.
#[verifier::external_body]
pub struct Repository {
    pub(crate) repo: git2::Repository,
}

/// The library's error for a failure of the backend: a backend error that
/// carries the backend's message.
pub fn backend_error(error: &git2::Error) -> (res: RepoError)
    ensures
        res is Backend,
{
    RepoError::Backend(error_message(error))
}

/// The configuration key under which the token of the remote `name` is
/// kept.
pub open spec fn spec_token_key(name: Seq<char>) -> Seq<char> {
    "remote."@ + name + ".token"@
}

pub fn token_key(name: &str) -> (res: String)
    ensures
        res@ == spec_token_key(name@),
{
    String::from_str("remote.").concat(name).concat(".token")
}

/// A pull from an origin: where pointing the remote at the origin or
/// taking the snapshot failed, that failure is the result; otherwise the
/// pull protocol runs on the default branch, with the remote given and
/// switching allowed.
pub open spec fn spec_pull_from(
    prepared: Option<RepoErrorView>,
    head: HeadStatusView,
    a: pull::PullAnswers,
) -> Result<pull::PullOutcomeView, RepoErrorView> {
    match prepared {
        Some(e) => Err(e),
        None => pull::spec_pull(head, Some("main"@), true, true, a),
    }
}

/// A pull from an origin names the default branch where it succeeds, and
/// it never fails for being off the default branch, for an unknown
/// default branch, or for a choice among remotes.
pub proof fn lemma_pull_from_origin(
    prepared: Option<RepoErrorView>,
    head: HeadStatusView,
    a: pull::PullAnswers,
)
    requires
        pull::plausible(a),
        prepared matches Some(e) ==> e is Backend || e is NoRemote,
    ensures
        spec_pull_from(prepared, head, a) matches Ok(o) ==> o.branch() == "main"@,
        spec_pull_from(prepared, head, a) matches Err(e) ==> {
            &&& !(e is PushFailed)
            &&& !(e is NotOnDefaultBranch)
            &&& !(e is UnknownDefaultBranch)
            &&& !(e is AmbiguousRemote)
        },
{
}

/// A push to an origin: where pointing the remote at the origin or taking
/// the snapshot failed, that failure is the result; otherwise the push
/// protocol runs, with no preference among the remotes.
pub open spec fn spec_push_origin(
    prepared: Option<RepoErrorView>,
    given: bool,
    remotes: RemoteAnswers,
    a: push::PushAnswers,
) -> Result<(), RepoErrorView> {
    match prepared {
        Some(e) => Err(e),
        None => push::spec_push_to(given, None, remotes, a),
    }
}

impl Repository {
    /// Creates a repository with a working tree at `path`.
    pub fn init(path: &str) -> (res: Result<Repository, RepoError>)
        ensures
            res matches Err(e) ==> e is Backend,
    {
        init::init(path)
    }

    /// Creates a repository without a working tree at `path`.
    pub fn init_bare(path: &str) -> (res: Result<Repository, RepoError>)
        ensures
            res matches Err(e) ==> e is Backend,
    {
        init_bare::init_bare(path)
    }

    /// Opens the repository at `path`.
    pub fn open(path: &str) -> (res: Result<Repository, RepoError>)
        ensures
            res matches Err(e) ==> e is Backend,
    {
        open::open(path)
    }

    /// Clones the repository at `origin` into the directory `dataset_dir`.
    pub fn clone(dataset_dir: &str, origin: &Origin) -> (res: Result<Repository, RepoError>)
        ensures
            res matches Err(e) ==> e is Backend,
    {
        clone::clone(dataset_dir, origin)
    }

    /// Opens the repository at `path` if there is one.
    pub fn try_open(path: &str) -> (res: Result<Option<Repository>, RepoError>)
        ensures
            exists|failed: Option<BackendFailure>|
                try_open::try_open_view(res) == #[trigger] try_open::spec_try_open(failed),
    {
        try_open::try_open(path)
    }

    /// One snapshot of the repository, computed afresh.
    pub fn status<'a>(&'a self, settings: &Settings) -> (res: Result<
        (RepositoryStatus, Option<git2::Remote<'a>>),
        RepoError,
    >)
        ensures
            exists|a: status::StatusAnswers|
                {
                    &&& status::status_view(res) == #[trigger] status::spec_status(
                        text_view(settings.default_branch),
                        text_view(settings.default_remote),
                        a,
                    )
                    &&& res matches Ok(found)
                        ==> found.1 is Some == try_default_branch::spec_remote_in_hand(
                        text_view(settings.default_branch),
                        text_view(settings.default_remote),
                        a.branch,
                    )
                },
    {
        status::status(self, settings)
    }

    /// Where HEAD is.
    pub fn head_status(&self) -> (res: Result<HeadStatus, RepoError>)
        ensures
            exists|a: head_status::HeadAnswers|
                #[trigger] head_status::spec_head(a) == crate::head_status::result_view(res),
    {
        head_status::head_status(self)
    }

    /// How the branch under HEAD relates to the branch it follows.
    pub fn upstream_status(
        &self,
        head_status: &HeadStatus,
    ) -> (res: Result<UpstreamStatus, RepoError>)
        ensures
            exists|a: upstream_status::UpstreamAnswers|
                upstream_status::upstream_view(res) == #[trigger] upstream_status::spec_upstream(
                    head_status@,
                    a,
                ),
    {
        upstream_status::upstream_status(self, head_status)
    }

    /// The paths that differ between HEAD, the index and the working tree.
    pub fn working_tree_status(&self) -> (res: Result<WorkingTreeStatus, RepoError>)
        ensures
            exists|report: Result<Seq<(Option<String>, u32)>, Seq<char>>|
                working_tree_status::working_tree_view(res)
                    == #[trigger] working_tree_status::spec_working_tree(
                    report,
                ),
    {
        working_tree_status::working_tree_status(self)
    }

    /// Pulls the default branch from `origin`, switching to it first where
    /// HEAD is on another branch. The remote is pointed at the origin and
    /// a snapshot is taken; then the pull goes by its protocol, with the
    /// remote given, the default branch known and switching allowed.
    pub fn pull(&self, origin: &Origin) -> (res: Result<PullOutcome, RepoError>)
        ensures
            exists|prepared: Option<RepoErrorView>, head: HeadStatusView, a: pull::PullAnswers|
                {
                    &&& pull::plausible(a)
                    &&& prepared matches Some(e) ==> e is Backend || e is NoRemote
                    &&& pull::pull_view(res) == #[trigger] spec_pull_from(prepared, head, a)
                },
    {
        let defaults = Defaults::new();
        let settings = Settings {
            default_branch: Some(defaults.branch.clone()),
            default_remote: Some(defaults.remote.clone()),
            ssh: None,
            editor: None,
            ignore: None,
            prune: None,
        };
        let ghost blank = pull::PullAnswers {
            remote: None,
            advertised: None,
            switched: None,
            fetched: None,
            analysis: Err(RepoErrorView::Backend(Seq::empty())),
            applied: None,
        };
        match remote_set_url(self, defaults.remote.as_str(), origin.url.as_str()) {
            Ok(()) => {},
            Err(e) => {
                let error = backend_error(&e);
                proof {
                    assert(pull::pull_view(Err(error))
                        == spec_pull_from(Some(error@), arbitrary(), blank));
                }
                return Err(error);
            },
        }
        let remote = match self.find_remote(defaults.remote.as_str()) {
            Some(remote) => remote,
            None => {
                proof {
                    assert(pull::pull_view(Err(RepoError::NoRemote)) == spec_pull_from(
                        Some(RepoErrorView::NoRemote),
                        arbitrary(),
                        blank,
                    ));
                }
                return Err(RepoError::NoRemote);
            },
        };
        let (status, _) = match self.status(&settings) {
            Ok(found) => found,
            Err(e) => {
                proof {
                    assert(pull::pull_view(Err(e)) == spec_pull_from(Some(e@), arbitrary(), blank));
                }
                return Err(e);
            },
        };
        let result = pull::pull(self, &settings, &status, Some(remote), true, ignore_progress);
        proof {
            let a = choose|a: pull::PullAnswers|
                pull::plausible(a) && pull::pull_view(result) == #[trigger] pull::spec_pull(
                    status.head@,
                    text_view(status.default_branch),
                    true,
                    true,
                    a,
                );
            assert(pull::pull_view(result) == spec_pull_from(None, status.head@, a));
        }
        result
    }

    /// Gives the unborn branch under HEAD its first commit, the fetched one.
    pub fn create_unborn(
        &self,
        status: &RepositoryStatus,
        fetch_commit: git2::AnnotatedCommit<'_>,
    ) -> (res: Result<(), RepoError>)
        ensures
            !(status.head is Unborn) ==> (res matches Err(e) && e@ == create_unborn::not_unborn()),
            status.head is Unborn ==> exists|a: switch::MoveAnswers|
                switch::move_view(res) == #[trigger] switch::spec_move(a),
    {
        create_unborn::create_unborn(self, status, fetch_commit)
    }

    /// Moves the branch under HEAD forward to the fetched commit.
    pub fn fast_forward(&self, fetch_commit: git2::AnnotatedCommit<'_>) -> (res: Result<(), RepoError>)
        ensures
            exists|a: switch::MoveAnswers| switch::move_view(res)
                == #[trigger] switch::spec_move(a),
    {
        fast_forward::fast_forward(self, fetch_commit)
    }

    /// Pushes the branch under HEAD to `origin`. The remote is pointed at
    /// the origin and a snapshot is taken; then the push goes by its
    /// protocol, to the remote that the snapshot brought or else to the
    /// default remote.
    pub fn push(&self, origin: &Origin) -> (res: Result<(), RepoError>)
        ensures
            exists|prepared: Option<RepoErrorView>, given: bool, remotes: RemoteAnswers, a: push::PushAnswers|
                {
                    &&& prepared matches Some(e) ==> e is Backend
                    &&& push::push_view(res)
                        == #[trigger] spec_push_origin(prepared, given, remotes, a)
                },
    {
        let defaults = Defaults::new();
        let settings = Settings::new();
        let ghost blank = push::PushAnswers { head: None, name: None, transfer: None, exhausted: false };
        match remote_set_url(self, defaults.remote.as_str(), origin.url.as_str()) {
            Ok(()) => {},
            Err(e) => {
                let error = backend_error(&e);
                proof {
                    assert(push::push_view(Err(error)) == spec_push_origin(
                        Some(error@),
                        true,
                        arbitrary(),
                        blank,
                    ));
                }
                return Err(error);
            },
        }
        let (status, remote) = match self.status(&settings) {
            Ok(found) => found,
            Err(e) => {
                proof {
                    assert(push::push_view(Err(e))
                        == spec_push_origin(Some(e@), true, arbitrary(), blank));
                }
                return Err(e);
            },
        };
        let ghost given = remote is Some;
        let result = push::push(self, &settings, &status, remote);
        proof {
            let (remotes, a) = choose|remotes: RemoteAnswers, a: push::PushAnswers|
                push::push_view(result) == #[trigger] push::spec_push_to(given, None, remotes, a);
            assert(push::push_view(result) == spec_push_origin(None, given, remotes, a));
        }
        result
    }

    /// Synchronises the repository with `origin`.
    pub fn sync(&self, origin: &Origin) -> (res: Result<Sync, RepoError>)
        ensures
            exists|a: resolve::ResolveAnswers|
                resolve::plausible(a)
                    && sync::sync_view(res) == #[trigger] resolve::spec_resolve(origin@, a),
    {
        sync::sync(self, origin)
    }

    /// Reconciles the repository with `origin`, in both directions.
    pub fn resolve(&self, origin: &Origin) -> (res: Result<Resolve, RepoError>)
        ensures
            exists|a: resolve::ResolveAnswers|
                resolve::plausible(a)
                    && resolve::resolve_view(res) == #[trigger] resolve::spec_resolve(
                    origin@,
                    a,
                ),
    {
        resolve::resolve(self, origin)
    }

    /// Stages every new or modified file and writes the index as a tree.
    pub fn add(&self) -> (res: Result<(git2::Oid, String), RepoError>)
        ensures
            res matches Ok((_, message)) ==> add::is_staging_message(message@),
            res matches Err(e) ==> e is Backend,
    {
        crate::repository::add::add(self)
    }

    /// Creates the local branch `name` at the commit under HEAD.
    pub fn create_branch(&self, settings: &Settings, name: &str) -> (res: Result<(), RepoError>)
        ensures
            has_nul(name@) ==> res is Err,
            res matches Err(e) ==> e is Backend,
    {
        create_branch::create_branch(self, settings, name)
    }

    /// Switches to the local branch `branch_name`.
    pub fn switch_branch(&self, branch_name: &str) -> (res: Result<(), RepoError>)
        ensures
            exists|a: switch::MoveAnswers| switch::move_view(res)
                == #[trigger] switch::spec_move(a),
    {
        switch_branch::switch_branch(self, branch_name)
    }

    /// Checks out what `reference` leads to and puts HEAD on it.
    pub fn switch(&self, reference: &git2::Reference<'_>) -> (res: Result<(), RepoError>)
        ensures
            exists|a: switch::MoveAnswers| switch::move_view(res)
                == #[trigger] switch::spec_move(a),
    {
        switch::switch(self, reference)
    }

    /// The branch under HEAD.
    pub fn head_branch<'a>(&'a self) -> (res: Result<git2::Branch<'a>, RepoError>)
        ensures
            res matches Err(e) ==> e is Backend || e is DetachedHead,
    {
        head_branch::head_branch(self)
    }

    /// The remote that the settings and the configuration agree on.
    pub fn default_remote<'a>(
        &'a self,
        settings: &Settings,
    ) -> (res: Result<git2::Remote<'a>, RepoError>)
        ensures
            exists|a: default_remote::RemoteAnswers|
                match res {
                    Ok(_) => (#[trigger] default_remote::spec_default_remote(
                        text_view(settings.default_remote),
                        a,
                    )) is Ok,
                    Err(e) => default_remote::spec_default_remote(
                        text_view(settings.default_remote),
                        a,
                    ) == Err::<Seq<char>, crate::error::RepoErrorView>(e@),
                },
    {
        default_remote::default_remote(self, settings)
    }

    /// The branch that `remote` advertises as its default.
    pub fn default_branch_for_remote(
        &self,
        remote: &mut git2::Remote<'_>,
    ) -> (res: Result<String, RepoError>)
        ensures
            res matches Err(e) ==> e is Backend,
    {
        let mut credentials = CredentialsState::new("git", None);
        default_branch_for_remote::default_branch_for_remote(self, remote, &mut credentials)
    }

    /// The default branch, found without ever failing.
    pub fn try_default_branch<'a>(&'a self, settings: &Settings) -> (res: (
        Option<String>,
        Option<git2::Remote<'a>>,
    ))
        ensures
            exists|a: try_default_branch::BranchAnswers|
                {
                    &&& text_view(res.0) == #[trigger] try_default_branch::spec_default_branch(
                        text_view(settings.default_branch),
                        text_view(settings.default_remote),
                        a,
                    )
                    &&& res.1 is Some == try_default_branch::spec_remote_in_hand(
                        text_view(settings.default_branch),
                        text_view(settings.default_remote),
                        a,
                    )
                },
    {
        try_default_branch::try_default_branch(self, settings)
    }

    /// Stages what is new and commits it.
    pub fn commit(&self) -> (res: Result<git2::Oid, RepoError>)
        ensures
            exists|a: commit::CommitAnswers|
                commit::plausible(a) && commit::commit_view(res)
                    == #[trigger] commit::spec_commit(a),
    {
        commit::commit(self)
    }

    /// The commit that HEAD leads to.
    pub fn find_last_commit<'a>(&'a self) -> (res: Result<git2::Commit<'a>, RepoError>)
        ensures
            res matches Err(e) ==> e is Backend,
    {
        find_last_commit::find_last_commit(self)
    }

    /// The remote configured under `remote`, if there is one. There is
    /// none under a name that the backend cannot take.
    pub fn find_remote<'a>(&'a self, remote: &str) -> (res: Option<git2::Remote<'a>>)
        ensures
            has_nul(remote@) ==> res is None,
    {
        match crate::backend::find_remote(self, remote) {
            Ok(found) => Some(found),
            Err(_) => None,
        }
    }

    /// The origin as the configuration holds it: the URL of the default
    /// remote and the token stored beside it. A missing or empty token is
    /// no token; without the remote there is no origin.
    pub fn get_origin(&self) -> (res: Option<Origin>)
        ensures
            res matches Some(origin) ==> exists|url: Seq<char>, token: Option<Seq<char>>|
                origin@ == #[trigger] spec_stored(url, token),
    {
        let defaults = Defaults::new();
        let remote = match self.find_remote(defaults.remote.as_str()) {
            Some(remote) => remote,
            None => return None,
        };
        let url = match remote_url(&remote) {
            Ok(url) => url,
            Err(_) => return None,
        };
        let mut config = match repository_config(self) {
            Ok(config) => config,
            Err(_) => return None,
        };
        let snapshot = match config_snapshot(&mut config) {
            Ok(snapshot) => snapshot,
            Err(_) => return None,
        };
        let token = match config_get_string(&snapshot, token_key(defaults.remote.as_str()).as_str()) {
            Ok(token) => Some(token),
            Err(_) => None,
        };
        Some(Origin::from_stored(url, token))
    }

    /// Stores the origin in the configuration: the URL on the default
    /// remote, and the token, where there is one, beside it. The URL is
    /// stored first, and the token is not stored where that fails. A URL
    /// or a token that the backend cannot take is refused.
    pub fn set_origin(&self, origin: Origin) -> (res: Result<(), RepoError>)
        ensures
            !storable(origin@) ==> res is Err,
            res matches Err(e) ==> e is Backend,
    {
        let defaults = Defaults::new();
        match remote_set_url(self, defaults.remote.as_str(), origin.url.as_str()) {
            Ok(()) => {},
            Err(e) => return Err(backend_error(&e)),
        }
        match &origin.token {
            None => Ok(()),
            Some(token) => {
                let mut config = match repository_config(self) {
                    Ok(config) => config,
                    Err(e) => return Err(backend_error(&e)),
                };
                let key = token_key(defaults.remote.as_str());
                match config_set_str(&mut config, key.as_str(), token.as_str()) {
                    Ok(()) => Ok(()),
                    Err(e) => Err(backend_error(&e)),
                }
            },
        }
    }

    /// Adds the remote `name` at `url` to the configuration. A name or a
    /// URL that the backend cannot take is refused.
    pub fn remote<'a>(&'a self, name: &str, url: &str) -> (res: Result<git2::Remote<'a>, RepoError>)
        ensures
            has_nul(name@) || has_nul(url@) ==> res is Err,
            res matches Err(e) ==> e is Backend,
    {
        match remote_create(self, name, url) {
            Ok(remote) => Ok(remote),
            Err(e) => Err(backend_error(&e)),
        }
    }
}

/// Whether the backend can store an origin: neither its URL nor its
/// token holds a NUL character.
pub open spec fn storable(origin: OriginView) -> bool {
    !has_nul(origin.url) && !(origin.token is Some && has_nul(origin.token->0))
}

} // verus!
