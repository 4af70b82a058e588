//! The version-control backend: the `git2` types that the library carries
//! and the calls it makes into them. Nothing here is proved. What a call
//! returns depends on what is on disk and on the remote, so most contracts
//! claim nothing: the callers are verified for every result.

use vstd::prelude::*;
use crate::credentials_state::{
    negotiated, next_credential, username_credential, CredentialsState, Request,
};
use crate::error::BackendErrorKind;
use crate::merge_class::Analysis;
use crate::progress::{forward, ProgressGate, TransferProgress};
use crate::repository::Repository;
use crate::repository::add::{extend_all, stage_path};
use crate::settings::Prune;

verus! {

#[verifier::external_type_specification]
#[verifier::external_body]
pub struct ExBackendError(git2::Error);

#[verifier::external_type_specification]
#[verifier::external_body]
pub struct ExRemote<'repo>(git2::Remote<'repo>);

#[verifier::external_type_specification]
#[verifier::external_body]
pub struct ExReference<'repo>(git2::Reference<'repo>);

#[verifier::external_type_specification]
#[verifier::external_body]
pub struct ExAnnotatedCommit<'repo>(git2::AnnotatedCommit<'repo>);

#[verifier::external_type_specification]
#[verifier::external_body]
pub struct ExCommit<'repo>(git2::Commit<'repo>);

#[verifier::external_type_specification]
#[verifier::external_body]
pub struct ExTree<'repo>(git2::Tree<'repo>);

#[verifier::external_type_specification]
#[verifier::external_body]
pub struct ExSignature<'a>(git2::Signature<'a>);

#[verifier::external_type_specification]
#[verifier::external_body]
pub struct ExOid(git2::Oid);

#[verifier::external_type_specification]
#[verifier::external_body]
pub struct ExIndex(git2::Index);

#[verifier::external_type_specification]
#[verifier::external_body]
pub struct ExConfig(git2::Config);

#[verifier::external_type_specification]
#[verifier::external_body]
pub struct ExCred(git2::Cred);

#[verifier::external_type_specification]
#[verifier::external_body]
pub struct ExFetchPrune(git2::FetchPrune);

#[verifier::external_type_specification]
#[verifier::external_body]
pub struct ExBranch<'repo>(git2::Branch<'repo>);

#[verifier::external_type_specification]
#[verifier::external_body]
pub struct ExCheckoutBuilder<'cb>(git2::build::CheckoutBuilder<'cb>);

/// Whether a string holds a NUL character, which no header may.
pub open spec fn has_nul(s: Seq<char>) -> bool {
    s.contains('\0')
}

/// Whether none of the headers holds a NUL character.
pub open spec fn headers_ok(headers: Seq<&str>) -> bool {
    forall|i: int| 0 <= i < headers.len() ==> !has_nul(#[trigger] headers[i]@)
}

/// `git2::Error::code`, reduced to the kinds that the library acts on.
#[verifier::external_body]
pub(crate) fn error_kind(error: &git2::Error) -> (res: BackendErrorKind) {
    match error.code() {
        git2::ErrorCode::NotFound => BackendErrorKind::NotFound,
        git2::ErrorCode::UnbornBranch => BackendErrorKind::UnbornBranch,
        git2::ErrorCode::Conflict => BackendErrorKind::Conflict,
        git2::ErrorCode::Auth => BackendErrorKind::Auth,
        _ => BackendErrorKind::Other,
    }
}

/// `git2::Error::class`: whether the failure was in reading or writing a
/// reference.
#[verifier::external_body]
pub(crate) fn error_in_reference(error: &git2::Error) -> (res: bool) {
    matches!(error.class(), git2::ErrorClass::Reference)
}

/// `git2::Error::message`: the text that the backend attached.
#[verifier::external_body]
pub(crate) fn error_message(error: &git2::Error) -> (res: String) {
    error.message().to_string()
}

/// `git2::Error::new`: an authentication error of the library's own making,
/// handed to the backend when no credential is left.
#[verifier::external_body]
pub(crate) fn auth_error(message: &str) -> (res: git2::Error) {
    git2::Error::new(git2::ErrorCode::Auth, git2::ErrorClass::Callback, message)
}

/// `git2::Repository::init`: creates a repository with a working tree at
/// `path`, or opens the one that is there.
#[verifier::external_body]
pub(crate) fn repository_init(path: &str) -> (res: Result<Repository, git2::Error>) {
    git2::Repository::init(path).map(|repo| Repository { repo })
}

/// `git2::Repository::init_bare`: the same without a working tree.
#[verifier::external_body]
pub(crate) fn repository_init_bare(path: &str) -> (res: Result<Repository, git2::Error>) {
    git2::Repository::init_bare(path).map(|repo| Repository { repo })
}

/// `git2::Repository::open`: opens the repository at `path`.
#[verifier::external_body]
pub(crate) fn repository_open(path: &str) -> (res: Result<Repository, git2::Error>) {
    git2::Repository::open(path).map(|repo| Repository { repo })
}

/// `git2::build::RepoBuilder::clone`: clones `url` into the directory
/// `into`, answering every request for credentials with the user name
/// `username`.
#[verifier::external_body]
pub(crate) fn repository_clone(url: &str, into: &str, username: &str) -> (res: Result<
    Repository,
    git2::Error,
>) {
    let mut callbacks = git2::RemoteCallbacks::new();
    callbacks.credentials(|_url, _user, _allowed| username_credential(username));
    let mut options = git2::FetchOptions::new();
    options.remote_callbacks(callbacks);
    let mut builder = git2::build::RepoBuilder::new();
    builder.fetch_options(options);
    builder.clone(url, std::path::Path::new(into)).map(|repo| Repository { repo })
}

/// `git2::Repository::remotes`: the names of the configured remotes; an
/// entry is `None` where a name is not valid UTF-8.
#[verifier::external_body]
pub(crate) fn remote_names(
    repository: &Repository,
) -> (res: Result<Vec<Option<String>>, git2::Error>) {
    let names = repository.repo.remotes()?;
    Ok(names.iter().map(|name| name.ok().flatten().map(|s| s.to_string())).collect())
}

/// `git2::Repository::find_remote`: the remote configured under `name`.
/// The backend turns the name into a C string first and fails where it
/// holds a NUL character; nothing else is claimed.
#[verifier::external_body]
pub(crate) fn find_remote<'a>(repository: &'a Repository, name: &str) -> (res: Result<
    git2::Remote<'a>,
    git2::Error,
>)
    ensures
        has_nul(name@) ==> res is Err,
{
    repository.repo.find_remote(name)
}

/// `git2::Repository::remote`: adds a remote `name` at `url` to the
/// configuration. The backend turns both texts into C strings first and
/// fails where one holds a NUL character; nothing else is claimed.
#[verifier::external_body]
pub(crate) fn remote_create<'a>(repository: &'a Repository, name: &str, url: &str) -> (res: Result<
    git2::Remote<'a>,
    git2::Error,
>)
    ensures
        has_nul(name@) || has_nul(url@) ==> res is Err,
{
    repository.repo.remote(name, url)
}

/// `git2::Repository::remote_set_url`: points the configured remote `name`
/// at `url`. The backend turns both texts into C strings first and fails
/// where one holds a NUL character; nothing else is claimed.
#[verifier::external_body]
pub(crate) fn remote_set_url(repository: &Repository, name: &str, url: &str) -> (res: Result<
    (),
    git2::Error,
>)
    ensures
        has_nul(name@) || has_nul(url@) ==> res is Err,
{
    repository.repo.remote_set_url(name, url)
}

/// `git2::Remote::url`: the URL of a remote.
#[verifier::external_body]
pub(crate) fn remote_url(remote: &git2::Remote<'_>) -> (res: Result<String, git2::Error>) {
    remote.url().map(|url| url.to_string())
}

/// `git2::Remote::connect_auth`: opens a read-only connection and closes it
/// again; what the remote advertised stays with `remote`. Requests for
/// credentials are answered from `state`, by `next_credential` and by
/// nothing else, so the negotiation comes back as some run of requests
/// has left it.
#[verifier::external_body]
pub(crate) fn remote_connect(
    remote: &mut git2::Remote<'_>,
    state: &mut CredentialsState,
) -> (res: Result<(), git2::Error>)
    ensures
        exists|requests: Seq<Request>| final(state)@ == #[trigger] negotiated(old(state)@, requests),
{
    let mut callbacks = git2::RemoteCallbacks::new();
    callbacks.credentials(|_url, user, allowed| next_credential(state, user, allowed.bits()));
    remote.connect_auth(git2::Direction::Fetch, Some(callbacks), None).map(|_connection| ())
}

/// `git2::Remote::default_branch`: the reference that the remote advertised
/// as its default when it was last connected.
#[verifier::external_body]
pub(crate) fn remote_default_branch(
    remote: &git2::Remote<'_>,
) -> (res: Result<String, git2::Error>) {
    let name = remote.default_branch()?;
    name.as_str().map(|s| s.to_string())
}

/// `git2::Remote::fetch`: fetches the configured references and all tags
/// from the remote and records them in FETCH_HEAD, sending `headers`,
/// answering requests for credentials from `state` and passing the
/// counters of each progress update to `forward`. The backend rejects a
/// header that holds a NUL character by panicking, so none may.
#[verifier::external_body]
pub(crate) fn remote_fetch<F: Fn(TransferProgress)>(
    remote: &mut git2::Remote<'_>,
    state: &mut CredentialsState,
    headers: &Vec<&str>,
    prune: git2::FetchPrune,
    gate: &mut ProgressGate,
    sink: &F,
) -> (res: Result<(), git2::Error>)
    requires
        headers_ok(headers@),
        forall|u: TransferProgress| sink.requires((u,)),
{
    let mut callbacks = git2::RemoteCallbacks::new();
    callbacks.credentials(|_url, user, allowed| next_credential(state, user, allowed.bits()));
    callbacks.transfer_progress(|p| {
        let objects = (p.total_objects(), p.indexed_objects(), p.received_objects());
        forward(gate, sink, TransferProgress::new(objects, p.received_bytes()))
    });
    let mut options = git2::FetchOptions::new();
    options.remote_callbacks(callbacks).custom_headers(headers).prune(prune);
    options.download_tags(git2::AutotagOption::All);
    remote.fetch::<&str>(&[], Some(&mut options), Some("fetching"))
}

/// `git2::FetchPrune`: the backend's name for a prune policy.
#[verifier::external_body]
pub(crate) fn fetch_prune(prune: Prune) -> (res: git2::FetchPrune) {
    match prune {
        Prune::Unspecified => git2::FetchPrune::Unspecified,
        Prune::On => git2::FetchPrune::On,
        Prune::Off => git2::FetchPrune::Off,
    }
}

/// `git2::Remote::push`: pushes the reference `refname` to the remote under
/// the same name, sending `headers` and answering requests for credentials
/// from `state`. No header may hold a NUL character.
#[verifier::external_body]
pub(crate) fn remote_push(
    remote: &mut git2::Remote<'_>,
    state: &mut CredentialsState,
    headers: &Vec<&str>,
    refname: &str,
) -> (res: Result<(), git2::Error>)
    requires
        headers_ok(headers@),
{
    let mut callbacks = git2::RemoteCallbacks::new();
    callbacks.credentials(|_url, user, allowed| next_credential(state, user, allowed.bits()));
    let mut options = git2::PushOptions::new();
    options.remote_callbacks(callbacks).custom_headers(headers);
    remote.push(&[refname], Some(&mut options))
}

/// `git2::Cred::default`: a credential for the backend's negotiated default
/// mechanism.
#[verifier::external_body]
pub(crate) fn cred_default() -> (res: Result<git2::Cred, git2::Error>) {
    git2::Cred::default()
}

/// `git2::Cred::ssh_key_from_agent`: a credential that asks the running
/// agent for a key of `username`. The backend turns the name into a C
/// string first and fails where it holds a NUL character; nothing else is
/// claimed.
#[verifier::external_body]
pub(crate) fn cred_ssh_key_from_agent(username: &str) -> (res: Result<git2::Cred, git2::Error>)
    ensures
        has_nul(username@) ==> res is Err,
{
    git2::Cred::ssh_key_from_agent(username)
}

/// `git2::Cred::ssh_key`: a credential from the private key file at
/// `private_key`, unlocked with `passphrase` where one is given. The
/// backend turns the name and the path into C strings first and fails
/// where one holds a NUL character; nothing else is claimed.
#[verifier::external_body]
pub(crate) fn cred_ssh_key(
    username: &str,
    private_key: &str,
    passphrase: Option<&str>,
) -> (res: Result<git2::Cred, git2::Error>)
    ensures
        has_nul(username@) || has_nul(private_key@) ==> res is Err,
{
    git2::Cred::ssh_key(username, None, std::path::Path::new(private_key), passphrase)
}

/// `git2::Cred::username`: a credential that names the user and nothing
/// else. The backend turns the name into a C string first and fails where
/// it holds a NUL character; nothing else is claimed.
#[verifier::external_body]
pub(crate) fn cred_username(username: &str) -> (res: Result<git2::Cred, git2::Error>)
    ensures
        has_nul(username@) ==> res is Err,
{
    git2::Cred::username(username)
}

/// `git2::Repository::find_reference`: the reference called `name`.
#[verifier::external_body]
pub(crate) fn find_reference<'a>(repository: &'a Repository, name: &str) -> (res: Result<
    git2::Reference<'a>,
    git2::Error,
>) {
    repository.repo.find_reference(name)
}

/// `git2::Repository::head`: the reference that HEAD resolves to.
#[verifier::external_body]
pub(crate) fn repository_head<'a>(repository: &'a Repository) -> (res: Result<
    git2::Reference<'a>,
    git2::Error,
>) {
    repository.repo.head()
}

/// `git2::Repository::set_head`: makes HEAD point to the reference
/// `refname`.
#[verifier::external_body]
pub(crate) fn set_head(repository: &Repository, refname: &str) -> (res: Result<(), git2::Error>) {
    repository.repo.set_head(refname)
}

/// `git2::Repository::refname_to_id`: the commit that the reference `name`
/// resolves to.
#[verifier::external_body]
pub(crate) fn refname_to_id(
    repository: &Repository,
    name: &str,
) -> (res: Result<git2::Oid, git2::Error>) {
    repository.repo.refname_to_id(name)
}

/// `git2::Reference::symbolic_target`: the name that a symbolic reference
/// holds, `None` for a direct one.
#[verifier::external_body]
pub(crate) fn reference_symbolic_target(reference: &git2::Reference<'_>) -> (res: Result<
    Option<String>,
    git2::Error,
>) {
    reference.symbolic_target().map(|target| target.map(|s| s.to_string()))
}

/// `git2::Reference::resolve`: follows a symbolic reference to the direct
/// one behind it.
#[verifier::external_body]
pub(crate) fn reference_resolve<'a>(reference: &git2::Reference<'a>) -> (res: Result<
    git2::Reference<'a>,
    git2::Error,
>) {
    reference.resolve()
}

/// `git2::Reference::target`: the commit that a direct reference holds.
#[verifier::external_body]
pub(crate) fn reference_target(reference: &git2::Reference<'_>) -> (res: Option<git2::Oid>) {
    reference.target()
}

/// `git2::Reference::is_branch`: whether a reference is a local branch.
#[verifier::external_body]
pub(crate) fn reference_is_branch(reference: &git2::Reference<'_>) -> (res: bool) {
    reference.is_branch()
}

/// `git2::Branch::wrap`: a reference seen as a branch.
#[verifier::external_body]
pub(crate) fn branch_wrap<'a>(reference: git2::Reference<'a>) -> (res: git2::Branch<'a>) {
    git2::Branch::wrap(reference)
}

/// `git2::Reference::name`: the full name of a reference.
#[verifier::external_body]
pub(crate) fn reference_name(
    reference: &git2::Reference<'_>,
) -> (res: Result<String, git2::Error>) {
    reference.name().map(|name| name.to_string())
}

/// `git2::Reference::set_target`: moves a direct reference to `id`,
/// recording `message` in its log.
#[verifier::external_body]
pub(crate) fn reference_set_target<'a>(
    reference: &mut git2::Reference<'a>,
    id: git2::Oid,
    message: &str,
) -> (res: Result<git2::Reference<'a>, git2::Error>) {
    reference.set_target(id, message)
}

/// `git2::Reference::peel_to_commit`: the commit that a reference leads to.
#[verifier::external_body]
pub(crate) fn reference_peel_to_commit<'a>(reference: &git2::Reference<'a>) -> (res: Result<
    git2::Commit<'a>,
    git2::Error,
>) {
    reference.peel_to_commit()
}

/// `git2::Repository::reference_to_annotated_commit`: the commit behind a
/// reference, together with where it came from.
#[verifier::external_body]
pub(crate) fn reference_to_annotated_commit<'a>(
    repository: &'a Repository,
    reference: &git2::Reference<'_>,
) -> (res: Result<git2::AnnotatedCommit<'a>, git2::Error>) {
    repository.repo.reference_to_annotated_commit(reference)
}

/// `git2::AnnotatedCommit::id`: the id of the commit.
#[verifier::external_body]
pub(crate) fn annotated_commit_id(commit: &git2::AnnotatedCommit<'_>) -> (res: git2::Oid) {
    commit.id()
}

/// `git2::Commit::id`: the id of the commit.
#[verifier::external_body]
pub(crate) fn commit_id(commit: &git2::Commit<'_>) -> (res: git2::Oid) {
    commit.id()
}

/// The hexadecimal form of an id, as `git2::Oid` displays it.
#[verifier::external_body]
pub(crate) fn oid_to_string(id: git2::Oid) -> (res: String) {
    id.to_string()
}

/// `git2::Repository::merge_analysis`: how the history of `commit` relates
/// to that of HEAD, one flag for each finding of the backend.
#[verifier::external_body]
pub(crate) fn merge_analysis(
    repository: &Repository,
    commit: &git2::AnnotatedCommit<'_>,
) -> (res: Result<Analysis, git2::Error>) {
    let (found, _preference) = repository.repo.merge_analysis(&[commit])?;
    Ok(Analysis {
        up_to_date: found.is_up_to_date(),
        unborn: found.is_unborn(),
        fast_forward: found.is_fast_forward(),
        normal: found.is_normal(),
    })
}

/// `git2::Repository::find_commit`: the commit with the id `id`.
#[verifier::external_body]
pub(crate) fn find_commit<'a>(repository: &'a Repository, id: git2::Oid) -> (res: Result<
    git2::Commit<'a>,
    git2::Error,
>) {
    repository.repo.find_commit(id)
}

/// `git2::Repository::find_tree`: the tree with the id `id`.
#[verifier::external_body]
pub(crate) fn find_tree<'a>(repository: &'a Repository, id: git2::Oid) -> (res: Result<
    git2::Tree<'a>,
    git2::Error,
>) {
    repository.repo.find_tree(id)
}

/// `git2::build::CheckoutBuilder::safe`: the options of a checkout that
/// fails rather than overwrite local changes.
#[verifier::external_body]
pub(crate) fn safe_checkout() -> (res: git2::build::CheckoutBuilder<'static>) {
    let mut options = git2::build::CheckoutBuilder::new();
    options.safe();
    options
}

/// `git2::build::CheckoutBuilder::force`: the options of a checkout that
/// overwrites whatever is there.
#[verifier::external_body]
pub(crate) fn forced_checkout() -> (res: git2::build::CheckoutBuilder<'static>) {
    let mut options = git2::build::CheckoutBuilder::new();
    options.force();
    options
}

/// `git2::Repository::checkout_tree`: brings index and working tree to the
/// tree of `commit`, under the given options.
#[verifier::external_body]
pub(crate) fn checkout_commit(
    repository: &Repository,
    commit: &git2::Commit<'_>,
    options: &mut git2::build::CheckoutBuilder<'_>,
) -> (res: Result<(), git2::Error>) {
    repository.repo.checkout_tree(commit.as_object(), Some(options))
}

/// `git2::Repository::branch`: creates the local branch `name` at `commit`,
/// replacing an existing one only where `force` is set, and returns its
/// reference. The backend turns the name into a C string first and fails
/// where it holds a NUL character; nothing else is claimed.
#[verifier::external_body]
pub(crate) fn create_branch<'a>(
    repository: &'a Repository,
    name: &str,
    commit: &git2::Commit<'_>,
    force: bool,
) -> (res: Result<git2::Reference<'a>, git2::Error>)
    ensures
        has_nul(name@) ==> res is Err,
{
    repository.repo.branch(name, commit, force).map(|branch| branch.into_reference())
}

/// `git2::Repository::find_branch`: the reference of the local branch
/// `name`.
#[verifier::external_body]
pub(crate) fn find_local_branch<'a>(repository: &'a Repository, name: &str) -> (res: Result<
    git2::Reference<'a>,
    git2::Error,
>) {
    repository.repo.find_branch(name, git2::BranchType::Local).map(|branch| branch.into_reference())
}

/// `git2::Repository::branch_upstream_name`: the full name of the
/// remote-tracking reference that the local branch reference `refname`
/// follows.
#[verifier::external_body]
pub(crate) fn branch_upstream_name(repository: &Repository, refname: &str) -> (res: Result<
    String,
    git2::Error,
>) {
    let name = repository.repo.branch_upstream_name(refname)?;
    name.as_str().map(|s| s.to_string())
}

/// `git2::Repository::branch_upstream_remote`: the name of the remote that
/// the local branch reference `refname` follows.
#[verifier::external_body]
pub(crate) fn branch_upstream_remote(repository: &Repository, refname: &str) -> (res: Result<
    String,
    git2::Error,
>) {
    let name = repository.repo.branch_upstream_remote(refname)?;
    name.as_str().map(|s| s.to_string())
}

/// `git2::Repository::graph_ahead_behind`: how many commits `local` has
/// that `upstream` lacks, and how many `upstream` has that `local` lacks.
#[verifier::external_body]
pub(crate) fn graph_ahead_behind(
    repository: &Repository,
    local: git2::Oid,
    upstream: git2::Oid,
) -> (res: Result<(usize, usize), git2::Error>) {
    repository.repo.graph_ahead_behind(local, upstream)
}

/// `git2::Repository::statuses`: every path whose state in the index or the
/// working tree differs from HEAD, untracked files included and submodules
/// left out, each with the backend's status bits. A path is `None` where it
/// is not valid UTF-8.
#[verifier::external_body]
pub(crate) fn statuses(
    repository: &Repository,
) -> (res: Result<Vec<(Option<String>, u32)>, git2::Error>) {
    let mut options = git2::StatusOptions::new();
    options.include_untracked(true).exclude_submodules(true);
    let found = repository.repo.statuses(Some(&mut options))?;
    Ok(found.iter().map(|e| (e.path().ok().map(|p| p.to_string()), e.status().bits())).collect())
}

/// `git2::Repository::status_file`: the backend's status bits of one path.
/// The backend turns the path into a C string first and fails where it
/// holds a NUL character; nothing else is claimed.
#[verifier::external_body]
pub(crate) fn status_file(repository: &Repository, path: &str) -> (res: Result<u32, git2::Error>)
    ensures
        has_nul(path@) ==> res is Err,
{
    repository.repo.status_file(std::path::Path::new(path)).map(|status| status.bits())
}

/// `git2::Repository::index`: the index of the repository.
#[verifier::external_body]
pub(crate) fn repository_index(repository: &Repository) -> (res: Result<git2::Index, git2::Error>) {
    repository.repo.index()
}

/// `git2::Index::add_all`: walks every path of the working tree that the
/// pattern `*` matches and asks `stage_path` about each: the path is added
/// to the index where the answer is 0 and skipped where it is positive; a
/// negative answer ends the walk with an error. `stage_path` alone touches
/// the message, so what comes back is the message that went in, extended
/// by the paths that were staged.
#[verifier::external_body]
pub(crate) fn index_add_all(
    index: &mut git2::Index,
    repository: &Repository,
    message: &mut String,
) -> (res: Result<(), git2::Error>)
    ensures
        exists|paths: Seq<Seq<char>>| final(message)@ == extend_all(old(message)@, paths),
{
    let mut visit = |path: &std::path::Path, _spec: &[u8]| -> i32 {
        stage_path(repository, message, &path.display().to_string())
    };
    index.add_all(["*"].iter(), git2::IndexAddOption::DEFAULT, Some(&mut visit))
}

/// `git2::Index::write`: writes the index back to disk.
#[verifier::external_body]
pub(crate) fn index_write(index: &mut git2::Index) -> (res: Result<(), git2::Error>) {
    index.write()
}

/// `git2::Index::write_tree`: writes the index as a tree and returns the
/// tree's id.
#[verifier::external_body]
pub(crate) fn index_write_tree(index: &mut git2::Index) -> (res: Result<git2::Oid, git2::Error>) {
    index.write_tree()
}

/// `git2::Signature::now`: an author with the current time.
#[verifier::external_body]
pub(crate) fn signature_now(
    name: &str,
    email: &str,
) -> (res: Result<git2::Signature<'static>, git2::Error>) {
    git2::Signature::now(name, email)
}

/// `git2::Repository::commit`: creates a commit of `tree` with the message
/// `message` and the parent `parent`, if any, and moves the reference
/// `update_ref` to it where one is named.
#[verifier::external_body]
pub(crate) fn create_commit(
    repository: &Repository,
    update_ref: Option<&str>,
    signature: &git2::Signature<'_>,
    message: &str,
    tree: &git2::Tree<'_>,
    parent: Option<&git2::Commit<'_>>,
) -> (res: Result<git2::Oid, git2::Error>) {
    let parents: Vec<&git2::Commit<'_>> = parent.into_iter().collect();
    repository.repo.commit(update_ref, signature, signature, message, tree, &parents)
}

/// `git2::Repository::config`: the configuration of the repository.
#[verifier::external_body]
pub(crate) fn repository_config(
    repository: &Repository,
) -> (res: Result<git2::Config, git2::Error>) {
    repository.repo.config()
}

/// `git2::Config::snapshot`: a consistent read-only copy of a
/// configuration.
#[verifier::external_body]
pub(crate) fn config_snapshot(
    config: &mut git2::Config,
) -> (res: Result<git2::Config, git2::Error>) {
    config.snapshot()
}

/// `git2::Config::get_string`: the value stored under `key`.
#[verifier::external_body]
pub(crate) fn config_get_string(
    config: &git2::Config,
    key: &str,
) -> (res: Result<String, git2::Error>) {
    config.get_string(key)
}

/// `git2::Config::set_str`: stores `value` under `key`. The backend turns
/// both texts into C strings first and fails where one holds a NUL
/// character; nothing else is claimed.
#[verifier::external_body]
pub(crate) fn config_set_str(config: &mut git2::Config, key: &str, value: &str) -> (res: Result<
    (),
    git2::Error,
>)
    ensures
        has_nul(key@) || has_nul(value@) ==> res is Err,
{
    config.set_str(key, value)
}

} // verus!
