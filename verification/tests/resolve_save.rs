use git2kit::{Origin, RepoError, Repository, Resolve};
use std::path::Path;
use temp_dir::TempDir;

fn write_file(root: &Path, name: &str, content: &[u8]) {
    let repo = git2::Repository::open(root).unwrap();
    let blob = repo.blob(content).unwrap();
    let mut builder = repo.treebuilder(None).unwrap();
    builder.insert(name, blob, 0o100644).unwrap();
    let tree = repo.find_object(builder.write().unwrap(), None).unwrap();
    let mut options = git2::build::CheckoutBuilder::new();
    options.force().update_index(false);
    repo.checkout_tree(&tree, Some(&mut options)).unwrap();
}

fn file_exists(root: &Path, name: &str) -> bool {
    let repo = git2::Repository::open(root).unwrap();
    repo.blob_path(&root.join(name)).is_ok()
}

fn read_file(root: &Path, name: &str) -> String {
    let repo = git2::Repository::open(root).unwrap();
    let id = repo.blob_path(&root.join(name)).unwrap();
    let blob = repo.find_blob(id).unwrap();
    String::from_utf8(blob.content().to_vec()).unwrap()
}

#[test]
fn resolve_save_test() -> Result<(), RepoError> {
    // create a temporary directory, will be deleted by destructor
    // must assign to keep in scope;
    let theirs_dir = TempDir::new();

    // reference temp_dir to not move it out of scope
    let theirs_path = theirs_dir.as_ref().unwrap().path().to_path_buf();

    let _theirs_repository = Repository::init_bare(theirs_path.to_str().unwrap())?;

    // clone the temporary directory to a push directory
    let origin = Origin::new(theirs_path.to_str().unwrap(), None);

    let ours_dir = TempDir::new();

    let ours_path = ours_dir.as_ref().unwrap().path().to_path_buf();

    let ours_repository = Repository::clone(ours_path.to_str().unwrap(), &origin)?;

    // empty commit just initialize the branch
    ours_repository.commit()?;

    // push empty commit to remote
    ours_repository.resolve(&origin)?;

    write_file(&ours_path, "foo.txt", b"Hello, world!\n");

    ours_repository.commit()?;

    // resolve a fast-forward repository
    ours_repository.resolve(&origin)?;

    // at this point theirs should have foo.txt at main
    git2::Repository::open(&theirs_path).unwrap().set_head("refs/heads/main").unwrap();

    // clone the temporary directory to a check directory
    let check_dir = TempDir::new();

    let check_path = check_dir.as_ref().unwrap().path().to_path_buf();

    let check_repository = Repository::clone(check_path.to_str().unwrap(), &origin)?;

    // check that repo cloned
    assert!(file_exists(&check_path, "foo.txt"));

    write_file(&ours_path, "foo.txt", b"Hello, world!\nfoobar!\n");

    ours_repository.commit()?;

    ours_repository.resolve(&origin)?;

    check_repository.resolve(&origin)?;

    let contents = read_file(&check_path, "foo.txt");

    assert!(contents == "Hello, world!\nfoobar!\n");

    Ok(())
}

#[test]
fn first_resolve_fills_an_empty_remote_and_the_second_clone_receives() {
    let remote_dir = TempDir::new().unwrap();
    let remote_path = remote_dir.path().to_path_buf();
    Repository::init_bare(remote_path.to_str().unwrap()).unwrap();
    let origin = Origin::new(remote_path.to_str().unwrap(), None);

    let a_dir = TempDir::new().unwrap();
    let a_path = a_dir.path().to_path_buf();
    let a = Repository::clone(a_path.to_str().unwrap(), &origin).unwrap();
    let b_dir = TempDir::new().unwrap();
    let b_path = b_dir.path().to_path_buf();
    let b = Repository::clone(b_path.to_str().unwrap(), &origin).unwrap();

    write_file(&a_path, "foo.txt", b"Hello, world!\n");
    let first = a.commit().unwrap();
    assert_eq!(a.resolve(&origin), Ok(Resolve { ok: true }));
    let remote = git2::Repository::open(&remote_path).unwrap();
    assert_eq!(remote.refname_to_id("refs/heads/main").unwrap(), first);

    git2::Repository::open(&b_path).unwrap().set_head("refs/heads/main").unwrap();
    assert_eq!(b.resolve(&origin), Ok(Resolve { ok: true }));
    assert_eq!(read_file(&b_path, "foo.txt"), "Hello, world!\n");
    let local = git2::Repository::open(&b_path).unwrap();
    assert_eq!(local.refname_to_id("refs/heads/main").unwrap(), first);
}

fn diverged_pair() -> (TempDir, TempDir, TempDir, Origin) {
    let remote_dir = TempDir::new().unwrap();
    let remote_path = remote_dir.path().to_path_buf();
    Repository::init_bare(remote_path.to_str().unwrap()).unwrap();
    let origin = Origin::new(remote_path.to_str().unwrap(), None);
    let a_dir = TempDir::new().unwrap();
    let a_path = a_dir.path().to_path_buf();
    let a = Repository::clone(a_path.to_str().unwrap(), &origin).unwrap();
    a.commit().unwrap();
    a.resolve(&origin).unwrap();
    git2::Repository::open(&remote_path).unwrap().set_head("refs/heads/main").unwrap();
    let b_dir = TempDir::new().unwrap();
    let b_path = b_dir.path().to_path_buf();
    Repository::clone(b_path.to_str().unwrap(), &origin).unwrap();
    write_file(&a_path, "a.txt", b"a");
    a.commit().unwrap();
    assert_eq!(a.resolve(&origin), Ok(Resolve { ok: true }));
    (remote_dir, a_dir, b_dir, origin)
}

#[test]
fn resolve_fails_where_histories_diverged_and_the_push_is_refused() {
    let (_remote_dir, _a_dir, b_dir, origin) = diverged_pair();
    let b_path = b_dir.path().to_path_buf();
    let b = Repository::open(b_path.to_str().unwrap()).unwrap();
    write_file(&b_path, "b.txt", b"b");
    b.commit().unwrap();
    assert_eq!(
        b.resolve(&origin),
        Err(RepoError::PushFailed("cannot push non-fastforwardable reference".to_string()))
    );
}

#[test]
fn resolve_reports_diverged_histories_as_not_ok_once_the_push_went_through() {
    let (remote_dir, _a_dir, b_dir, origin) = diverged_pair();
    let b_path = b_dir.path().to_path_buf();
    let b = Repository::open(b_path.to_str().unwrap()).unwrap();
    b.create_branch(&git2kit::Settings::new(), "side").unwrap();
    b.switch_branch("side").unwrap();
    write_file(&b_path, "b.txt", b"b");
    let pushed = b.commit().unwrap();
    assert_eq!(b.resolve(&origin), Ok(Resolve { ok: false }));
    let remote = git2::Repository::open(remote_dir.path()).unwrap();
    assert_eq!(remote.refname_to_id("refs/heads/side").unwrap(), pushed);
}

#[test]
fn resolve_refuses_a_token_with_a_nul_character() {
    let dir = TempDir::new().unwrap();
    let root = dir.path().to_path_buf();
    let repository = Repository::init(root.to_str().unwrap()).unwrap();
    let origin = Origin::new("https://example.invalid/x.git", Some("to\0ken"));
    assert_eq!(
        repository.resolve(&origin),
        Err(RepoError::Backend("the token holds a NUL character".to_string()))
    );
    assert_eq!(
        repository.sync(&origin).map(|s| s.ok),
        Err(RepoError::Backend("the token holds a NUL character".to_string()))
    );
}

#[test]
fn resolve_reports_the_fetch_failure_when_the_push_fails_too() {
    let dir = TempDir::new().unwrap();
    let root = dir.path().to_path_buf();
    let repository = Repository::init(root.to_str().unwrap()).unwrap();
    repository.commit().unwrap();
    repository.remote("origin", "/nowhere/at/all").unwrap();
    let origin = Origin::new("/nowhere/at/all", None);
    assert!(matches!(repository.resolve(&origin), Err(RepoError::FetchFailed(_))));
}

#[test]
fn sync_reports_as_resolve_does() {
    let remote_dir = TempDir::new().unwrap();
    let remote_path = remote_dir.path().to_path_buf();
    Repository::init_bare(remote_path.to_str().unwrap()).unwrap();
    let origin = Origin::new(remote_path.to_str().unwrap(), None);
    let a_dir = TempDir::new().unwrap();
    let a_path = a_dir.path().to_path_buf();
    let a = Repository::clone(a_path.to_str().unwrap(), &origin).unwrap();
    a.commit().unwrap();
    assert_eq!(a.sync(&origin).map(|s| s.ok), Ok(true));
}
