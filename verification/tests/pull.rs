use git2kit::head_status::HeadStatus;
use git2kit::progress::{forward, ignore_progress, ProgressGate, TransferProgress};
use git2kit::repository::pull::pull;
use std::cell::RefCell;
use git2kit::{Origin, PullOutcome, RepoError, Repository, Settings};
use std::path::Path;
use temp_dir::TempDir;

fn write_file(root: &Path, name: &str, content: &[u8]) {
    let repo = git2::Repository::open(root).unwrap();
    let blob = repo.blob(content).unwrap();
    let mut builder = repo.treebuilder(None).unwrap();
    builder.insert(name, blob, 0o100644).unwrap();
    let tree = repo.find_object(builder.write().unwrap(), None).unwrap();
    let mut options = git2::build::CheckoutBuilder::new();
    options.force().update_index(false);
    repo.checkout_tree(&tree, Some(&mut options)).unwrap();
}

fn file_exists(root: &Path, name: &str) -> bool {
    let repo = git2::Repository::open(root).unwrap();
    repo.blob_path(&root.join(name)).is_ok()
}

fn tip(root: &Path) -> git2::Oid {
    let repo = git2::Repository::open(root).unwrap();
    let id = repo.head().unwrap().target().unwrap();
    id
}

#[test]
fn pull_test() -> Result<(), RepoError> {
    // a repository with one commit stands for the project
    let temp_dir = TempDir::new();

    let temp_path = temp_dir.as_ref().unwrap().path().to_path_buf();

    let temp_repository = Repository::init(temp_path.to_str().unwrap())?;

    temp_repository.commit()?;

    // clone the temporary directory to a pull directory
    let pull_remote = Origin::new(temp_path.to_str().unwrap(), Some("token"));

    let pull_dir = TempDir::new();

    let pull_path = pull_dir.as_ref().unwrap().path().to_path_buf();

    let pull_repository = Repository::clone(pull_path.to_str().unwrap(), &pull_remote)?;

    // try to pull an up-to-date repository
    let outcome = pull_repository.pull(&pull_remote)?;

    assert!(outcome == PullOutcome::UpToDate("main".to_string()));

    write_file(&temp_path, "foo.txt", b"Hello, world!");

    temp_repository.commit()?;

    // try to pull a changed repository
    let outcome = pull_repository.pull(&pull_remote)?;

    assert!(outcome == PullOutcome::FastForwarded("main".to_string()));

    assert!(file_exists(&pull_path, "foo.txt"));

    Ok(())
}

#[test]
fn pull_from_behind_reaches_the_remote_tip_and_is_idempotent_after() {
    let remote_dir = TempDir::new().unwrap();
    let remote_path = remote_dir.path().to_path_buf();
    let remote = Repository::init(remote_path.to_str().unwrap()).unwrap();
    remote.commit().unwrap();
    let origin = Origin::new(remote_path.to_str().unwrap(), None);
    let local_dir = TempDir::new().unwrap();
    let local_path = local_dir.path().to_path_buf();
    let local = Repository::clone(local_path.to_str().unwrap(), &origin).unwrap();
    write_file(&remote_path, "foo.txt", b"Hello, world!");
    remote.commit().unwrap();
    assert_ne!(tip(&local_path), tip(&remote_path));

    assert_eq!(local.pull(&origin), Ok(PullOutcome::FastForwarded("main".to_string())));
    assert_eq!(tip(&local_path), tip(&remote_path));

    let before = tip(&local_path);
    assert_eq!(local.pull(&origin), Ok(PullOutcome::UpToDate("main".to_string())));
    assert_eq!(tip(&local_path), before);
    assert_eq!(local.pull(&origin), Ok(PullOutcome::UpToDate("main".to_string())));
    assert_eq!(tip(&local_path), before);
}

#[test]
fn pull_into_an_unborn_repository_creates_the_branch() {
    let remote_dir = TempDir::new().unwrap();
    let remote_path = remote_dir.path().to_path_buf();
    let remote = Repository::init(remote_path.to_str().unwrap()).unwrap();
    write_file(&remote_path, "foo.txt", b"Hello, world!");
    remote.commit().unwrap();

    let local_dir = TempDir::new().unwrap();
    let local_path = local_dir.path().to_path_buf();
    let local = Repository::init(local_path.to_str().unwrap()).unwrap();
    git2::Repository::open(&local_path).unwrap().set_head("refs/heads/main").unwrap();
    local.remote("origin", remote_path.to_str().unwrap()).unwrap();
    assert_eq!(local.head_status(), Ok(HeadStatus::Unborn { branch_name: "main".to_string() }));

    let origin = Origin::new(remote_path.to_str().unwrap(), None);
    assert_eq!(local.pull(&origin), Ok(PullOutcome::CreatedUnborn("main".to_string())));
    assert_eq!(local.head_status(), Ok(HeadStatus::Branch { name: "main".to_string() }));
    assert_eq!(tip(&local_path), tip(&remote_path));
    assert!(file_exists(&local_path, "foo.txt"));
}

#[test]
fn pull_refuses_diverged_histories() {
    let remote_dir = TempDir::new().unwrap();
    let remote_path = remote_dir.path().to_path_buf();
    let remote = Repository::init(remote_path.to_str().unwrap()).unwrap();
    remote.commit().unwrap();
    let origin = Origin::new(remote_path.to_str().unwrap(), None);
    let local_dir = TempDir::new().unwrap();
    let local_path = local_dir.path().to_path_buf();
    let local = Repository::clone(local_path.to_str().unwrap(), &origin).unwrap();
    write_file(&remote_path, "theirs.txt", b"theirs");
    remote.commit().unwrap();
    write_file(&local_path, "ours.txt", b"ours");
    local.commit().unwrap();
    let before = tip(&local_path);
    assert_eq!(local.pull(&origin), Err(RepoError::CannotFastForward));
    assert_eq!(tip(&local_path), before);
}

#[test]
fn pull_off_the_default_branch_is_refused_without_switch() {
    let remote_dir = TempDir::new().unwrap();
    let remote_path = remote_dir.path().to_path_buf();
    let remote = Repository::init(remote_path.to_str().unwrap()).unwrap();
    remote.commit().unwrap();
    let origin = Origin::new(remote_path.to_str().unwrap(), None);
    let local_dir = TempDir::new().unwrap();
    let local_path = local_dir.path().to_path_buf();
    let local = Repository::clone(local_path.to_str().unwrap(), &origin).unwrap();
    let mut settings = Settings::new();
    settings.default_branch = Some("other".to_string());
    let (status, _) = local.status(&settings).unwrap();
    let found = local.find_remote("origin");
    assert_eq!(pull(&local, &settings, &status, found, false, |_| {}), Err(RepoError::NotOnDefaultBranch));
}

#[test]
fn pull_with_a_detached_head_is_refused_even_with_switch() {
    let remote_dir = TempDir::new().unwrap();
    let remote_path = remote_dir.path().to_path_buf();
    let remote = Repository::init(remote_path.to_str().unwrap()).unwrap();
    remote.commit().unwrap();
    let origin = Origin::new(remote_path.to_str().unwrap(), None);
    let local_dir = TempDir::new().unwrap();
    let local_path = local_dir.path().to_path_buf();
    let local = Repository::clone(local_path.to_str().unwrap(), &origin).unwrap();
    let id = tip(&local_path);
    git2::Repository::open(&local_path).unwrap().set_head_detached(id).unwrap();
    assert_eq!(local.head_status(), Ok(HeadStatus::Detached { commit_id: id.to_string() }));
    assert_eq!(local.pull(&origin), Err(RepoError::DetachedHead));
}

#[test]
fn pull_switches_to_the_default_branch_where_allowed() {
    let remote_dir = TempDir::new().unwrap();
    let remote_path = remote_dir.path().to_path_buf();
    let remote = Repository::init(remote_path.to_str().unwrap()).unwrap();
    remote.commit().unwrap();
    let origin = Origin::new(remote_path.to_str().unwrap(), None);
    let local_dir = TempDir::new().unwrap();
    let local_path = local_dir.path().to_path_buf();
    let local = Repository::clone(local_path.to_str().unwrap(), &origin).unwrap();
    local.create_branch(&Settings::new(), "side").unwrap();
    local.switch_branch("side").unwrap();
    assert_eq!(local.head_status(), Ok(HeadStatus::Branch { name: "side".to_string() }));
    assert_eq!(local.pull(&origin), Ok(PullOutcome::UpToDate("main".to_string())));
    assert_eq!(local.head_status(), Ok(HeadStatus::Branch { name: "main".to_string() }));
}

#[test]
fn pull_without_any_remote_has_no_remote() {
    let dir = TempDir::new().unwrap();
    let root = dir.path().to_path_buf();
    let repository = Repository::init(root.to_str().unwrap()).unwrap();
    repository.commit().unwrap();
    let mut settings = Settings::new();
    settings.default_branch = Some("main".to_string());
    let (status, _) = repository.status(&settings).unwrap();
    assert_eq!(pull(&repository, &settings, &status, None, true, |_| {}), Err(RepoError::NoRemote));
}

fn counters(n: usize) -> TransferProgress {
    TransferProgress { total_objects: 10, indexed_objects: n, received_objects: n, received_bytes: 100 * n }
}

#[test]
fn the_sink_sees_the_transfer_and_never_sees_it_fall_behind() {
    let remote_dir = TempDir::new().unwrap();
    let remote_path = remote_dir.path().to_path_buf();
    let remote = Repository::init(remote_path.to_str().unwrap()).unwrap();
    remote.commit().unwrap();
    let origin = Origin::new(remote_path.to_str().unwrap(), None);
    let local_dir = TempDir::new().unwrap();
    let local_path = local_dir.path().to_path_buf();
    let local = Repository::clone(local_path.to_str().unwrap(), &origin).unwrap();
    write_file(&remote_path, "foo.txt", b"Hello, world!");
    remote.commit().unwrap();

    let mut settings = Settings::new();
    settings.default_branch = Some("main".to_string());
    let (status, _) = local.status(&settings).unwrap();
    let seen: RefCell<Vec<TransferProgress>> = RefCell::new(Vec::new());
    let outcome = pull(&local, &settings, &status, local.find_remote("origin"), false, |update| {
        seen.borrow_mut().push(update)
    });
    assert_eq!(outcome, Ok(PullOutcome::FastForwarded("main".to_string())));
    let seen = seen.into_inner();
    assert!(!seen.is_empty());
    for pair in seen.windows(2) {
        assert!(pair[0].total_objects <= pair[1].total_objects);
        assert!(pair[0].indexed_objects <= pair[1].indexed_objects);
        assert!(pair[0].received_objects <= pair[1].received_objects);
        assert!(pair[0].received_bytes <= pair[1].received_bytes);
    }
    assert!(seen.last().unwrap().received_objects > 0);
}

#[test]
fn the_gate_holds_back_updates_that_fall_behind() {
    let mut gate = ProgressGate::new();
    assert_eq!(
        gate.last,
        TransferProgress { total_objects: 0, indexed_objects: 0, received_objects: 0, received_bytes: 0 }
    );
    assert!(gate.let_through(counters(1)));
    assert_eq!(gate.last, counters(1));
    assert!(gate.let_through(counters(1)));
    assert!(!gate.let_through(counters(0)));
    assert_eq!(gate.last, counters(1));
    assert!(gate.let_through(counters(3)));
    let behind_in_one = TransferProgress { received_bytes: 0, ..counters(4) };
    assert!(!gate.let_through(behind_in_one));
    assert_eq!(gate.last, counters(3));
}

#[test]
fn forwarding_hands_on_what_the_gate_lets_through() {
    let seen: RefCell<Vec<TransferProgress>> = RefCell::new(Vec::new());
    let sink = |update| seen.borrow_mut().push(update);
    let mut gate = ProgressGate::new();
    for n in [1usize, 2, 1, 5, 4, 5, 6] {
        assert!(forward(&mut gate, &sink, counters(n)));
    }
    assert_eq!(seen.into_inner(), vec![counters(1), counters(2), counters(5), counters(5), counters(6)]);
    ignore_progress(counters(1));
    assert_eq!(
        TransferProgress::new((10, 3, 4), 500),
        TransferProgress { total_objects: 10, indexed_objects: 3, received_objects: 4, received_bytes: 500 }
    );
}

#[test]
fn pull_from_a_remote_without_references_has_no_merge_target() {
    let remote_dir = TempDir::new().unwrap();
    let remote_path = remote_dir.path().to_path_buf();
    Repository::init_bare(remote_path.to_str().unwrap()).unwrap();
    let origin = Origin::new(remote_path.to_str().unwrap(), None);
    let local_dir = TempDir::new().unwrap();
    let local_path = local_dir.path().to_path_buf();
    let local = Repository::clone(local_path.to_str().unwrap(), &origin).unwrap();
    local.commit().unwrap();
    assert_eq!(local.pull(&origin), Err(RepoError::NoMergeTarget));
}

#[test]
fn pull_over_local_changes_is_a_checkout_conflict_and_moves_nothing() {
    let remote_dir = TempDir::new().unwrap();
    let remote_path = remote_dir.path().to_path_buf();
    let remote = Repository::init(remote_path.to_str().unwrap()).unwrap();
    write_file(&remote_path, "foo.txt", b"first");
    remote.commit().unwrap();
    let origin = Origin::new(remote_path.to_str().unwrap(), None);
    let local_dir = TempDir::new().unwrap();
    let local_path = local_dir.path().to_path_buf();
    let local = Repository::clone(local_path.to_str().unwrap(), &origin).unwrap();
    write_file(&remote_path, "foo.txt", b"second");
    remote.commit().unwrap();
    write_file(&local_path, "foo.txt", b"mine");
    let before = tip(&local_path);
    assert_eq!(local.pull(&origin), Err(RepoError::CheckoutConflict));
    assert_eq!(tip(&local_path), before);
}

#[test]
fn pull_without_a_known_default_branch_fails_before_it_fetches() {
    let dir = TempDir::new().unwrap();
    let root = dir.path().to_path_buf();
    let repository = Repository::init(root.to_str().unwrap()).unwrap();
    repository.commit().unwrap();
    repository.remote("origin", "/nowhere/at/all").unwrap();
    let settings = Settings::new();
    let (status, _) = repository.status(&settings).unwrap();
    assert_eq!(status.default_branch, None);
    let found = repository.find_remote("origin");
    assert_eq!(pull(&repository, &settings, &status, found, true, |_| {}), Err(RepoError::UnknownDefaultBranch));
}
