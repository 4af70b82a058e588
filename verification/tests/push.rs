use git2kit::{Origin, RepoError, Repository};
use std::path::Path;
use temp_dir::TempDir;

fn write_file(root: &Path, name: &str, content: &[u8]) {
    let repo = git2::Repository::open(root).unwrap();
    let blob = repo.blob(content).unwrap();
    let mut builder = repo.treebuilder(None).unwrap();
    builder.insert(name, blob, 0o100644).unwrap();
    let tree = repo.find_object(builder.write().unwrap(), None).unwrap();
    let mut options = git2::build::CheckoutBuilder::new();
    options.force().update_index(false);
    repo.checkout_tree(&tree, Some(&mut options)).unwrap();
}

fn file_exists(root: &Path, name: &str) -> bool {
    let repo = git2::Repository::open(root).unwrap();
    repo.blob_path(&root.join(name)).is_ok()
}

#[test]
fn push_test() -> Result<(), RepoError> {
    // create a temporary directory, will be deleted by destructor
    // must assign to keep in scope;
    let origin_dir = TempDir::new();

    // reference temp_dir to not move it out of scope
    let origin_path = origin_dir.as_ref().unwrap().path().to_path_buf();

    let _origin_repository = Repository::init_bare(origin_path.to_str().unwrap())?;

    // clone the temporary directory to a push directory
    let origin = Origin::new(origin_path.to_str().unwrap(), Some("token"));

    let push_dir = TempDir::new();

    let push_path = push_dir.as_ref().unwrap().path().to_path_buf();

    let push_repository = Repository::clone(push_path.to_str().unwrap(), &origin)?;

    push_repository.commit()?;

    write_file(&push_path, "foo.txt", b"Hello, world!");

    push_repository.commit()?;

    // try to push an up-to-date repository
    push_repository.push(&origin)?;

    git2::Repository::open(&origin_path).unwrap().set_head("refs/heads/main").unwrap();

    // clone the temporary directory to a pull directory
    let pull_dir = TempDir::new();

    let pull_path = pull_dir.as_ref().unwrap().path().to_path_buf();

    Repository::clone(pull_path.to_str().unwrap(), &origin)?;

    // check that repo cloned
    assert!(file_exists(&pull_path, "foo.txt"));

    Ok(())
}

#[test]
fn clone_test() -> Result<(), RepoError> {
    // a repository with one commit stands for the project
    let source_dir = TempDir::new();

    let source_path = source_dir.as_ref().unwrap().path().to_path_buf();

    Repository::init(source_path.to_str().unwrap())?.commit()?;

    let remote = Origin::new(source_path.to_str().unwrap(), Some("token"));

    // create a temporary directory, will be deleted by destructor
    // must assign to keep in scope;
    let temp_dir = TempDir::new();

    // reference temp_dir to not move it out of scope
    let temp_path = temp_dir.as_ref().unwrap().path().to_path_buf();

    let _repository = Repository::clone(temp_path.to_str().unwrap(), &remote)?;

    let opened = git2::Repository::open(&temp_path).unwrap();

    assert!(opened.path() == temp_path.join(".git"));

    // check that repo cloned
    assert!(temp_path.join(".git").is_dir());

    Ok(())
}

#[test]
fn origin_is_stored_and_read_back() {
    let dir = TempDir::new().unwrap();
    let root = dir.path().to_path_buf();
    let repository = Repository::init(root.to_str().unwrap()).unwrap();
    assert_eq!(repository.get_origin(), None);
    repository.remote("origin", "https://x").unwrap();
    assert_eq!(repository.get_origin(), Some(Origin::new("https://x", None)));
    repository.set_origin(Origin::new("https://y", Some("t"))).unwrap();
    assert_eq!(repository.get_origin(), Some(Origin::new("https://y", Some("t"))));
    repository.set_origin(Origin::new("https://y", Some(""))).unwrap();
    assert_eq!(repository.get_origin(), Some(Origin::new("https://y", None)));
}

#[test]
fn try_open_finds_nothing_where_nothing_is() {
    let dir = TempDir::new().unwrap();
    let root = dir.path().to_path_buf();
    assert!(matches!(Repository::try_open(root.to_str().unwrap()), Ok(None)));
    assert!(Repository::open(root.to_str().unwrap()).is_err());
    Repository::init(root.to_str().unwrap()).unwrap();
    assert!(matches!(Repository::try_open(root.to_str().unwrap()), Ok(Some(_))));
}

#[test]
fn an_origin_is_read_off_a_remote() {
    let dir = TempDir::new().unwrap();
    let root = dir.path().to_path_buf();
    let repository = Repository::init(root.to_str().unwrap()).unwrap();
    let remote = repository.remote("origin", "https://x").unwrap();
    assert_eq!(Origin::from_remote(&remote), Ok(Origin::new("https://x", None)));
}

#[test]
fn the_branch_under_head_is_found_unless_head_is_detached() {
    let dir = TempDir::new().unwrap();
    let root = dir.path().to_path_buf();
    let repository = Repository::init(root.to_str().unwrap()).unwrap();
    assert!(matches!(repository.head_branch(), Err(RepoError::Backend(_))));
    let id = repository.commit().unwrap();
    assert_eq!(repository.head_branch().unwrap().name().unwrap(), Some("main"));
    assert_eq!(repository.find_last_commit().unwrap().id(), id);
    git2::Repository::open(&root).unwrap().set_head_detached(id).unwrap();
    assert!(matches!(repository.head_branch(), Err(RepoError::DetachedHead)));
}

#[test]
fn switching_refuses_to_overwrite_local_changes() {
    let dir = TempDir::new().unwrap();
    let root = dir.path().to_path_buf();
    let repository = Repository::init(root.to_str().unwrap()).unwrap();
    write_file(&root, "foo.txt", b"first");
    repository.commit().unwrap();
    repository.create_branch(&git2kit::Settings::new(), "side").unwrap();
    assert!(matches!(
        repository.create_branch(&git2kit::Settings::new(), "side"),
        Err(RepoError::Backend(_))
    ));
    write_file(&root, "foo.txt", b"second");
    repository.commit().unwrap();
    write_file(&root, "foo.txt", b"mine");
    assert_eq!(repository.switch_branch("side"), Err(RepoError::CheckoutConflict));
    assert!(matches!(repository.switch_branch("nowhere"), Err(RepoError::Backend(_))));
    write_file(&root, "foo.txt", b"second");
    assert_eq!(repository.switch_branch("side"), Ok(()));
    let repo = git2::Repository::open(&root).unwrap();
    assert_eq!(repo.find_reference("HEAD").unwrap().symbolic_target().unwrap(), Some("refs/heads/side"));
}
