use git2kit::credentials_state::{make_credential, username_credential, Credential, CredentialsState};
use git2kit::repository::add::stage_path;
use git2kit::repository::default_branch_for_remote::default_branch_for_remote;
use git2kit::repository::resolve::send;
use git2kit::{Origin, RepoError, Repository, Settings};
use std::path::Path;
use temp_dir::TempDir;

const NUL_MESSAGE: &str = "data contained a nul byte that could not be represented as a string";

fn write_file(root: &Path, name: &str, content: &[u8]) {
    let repo = git2::Repository::open(root).unwrap();
    let blob = repo.blob(content).unwrap();
    let mut builder = repo.treebuilder(None).unwrap();
    builder.insert(name, blob, 0o100644).unwrap();
    let tree = repo.find_object(builder.write().unwrap(), None).unwrap();
    let mut options = git2::build::CheckoutBuilder::new();
    options.force().update_index(false);
    repo.checkout_tree(&tree, Some(&mut options)).unwrap();
}

#[test]
fn a_remote_is_not_found_under_a_name_with_a_nul_character() {
    let dir = TempDir::new().unwrap();
    let repository = Repository::init(dir.path().to_str().unwrap()).unwrap();
    repository.remote("origin", "https://x").unwrap();
    assert!(repository.find_remote("origin").is_some());
    assert!(repository.find_remote("ori\0gin").is_none());
    assert!(repository.find_remote("other").is_none());
}

#[test]
fn a_remote_is_not_added_with_a_nul_character_in_name_or_url() {
    let dir = TempDir::new().unwrap();
    let repository = Repository::init(dir.path().to_str().unwrap()).unwrap();
    assert_eq!(repository.remote("a\0b", "https://x").err(), Some(RepoError::Backend(NUL_MESSAGE.to_string())));
    assert_eq!(repository.remote("ab", "https://\0x").err(), Some(RepoError::Backend(NUL_MESSAGE.to_string())));
    assert!(repository.find_remote("ab").is_none());
    assert!(repository.remote("ab", "https://x").is_ok());
}

#[test]
fn an_origin_with_a_nul_character_is_not_stored() {
    let dir = TempDir::new().unwrap();
    let repository = Repository::init(dir.path().to_str().unwrap()).unwrap();
    repository.remote("origin", "https://x").unwrap();
    assert_eq!(
        repository.set_origin(Origin::new("https://\0y", Some("t"))),
        Err(RepoError::Backend(NUL_MESSAGE.to_string()))
    );
    assert_eq!(repository.get_origin(), Some(Origin::new("https://x", None)));
    // the URL is stored before the token is refused
    assert_eq!(
        repository.set_origin(Origin::new("https://y", Some("t\0"))),
        Err(RepoError::Backend(NUL_MESSAGE.to_string()))
    );
    assert_eq!(repository.get_origin(), Some(Origin::new("https://y", None)));
    assert_eq!(repository.set_origin(Origin::new("https://z", None)), Ok(()));
    assert_eq!(repository.get_origin(), Some(Origin::new("https://z", None)));
}

#[test]
fn a_branch_is_not_created_under_a_name_with_a_nul_character() {
    let dir = TempDir::new().unwrap();
    let repository = Repository::init(dir.path().to_str().unwrap()).unwrap();
    repository.commit().unwrap();
    assert_eq!(
        repository.create_branch(&Settings::new(), "si\0de"),
        Err(RepoError::Backend(NUL_MESSAGE.to_string()))
    );
    assert_eq!(repository.create_branch(&Settings::new(), "side"), Ok(()));
}

#[test]
fn no_credential_is_built_from_text_with_a_nul_character() {
    assert!(username_credential("git").is_ok());
    assert!(username_credential("g\0it").is_err());
    assert!(make_credential(&Credential::Username { username: "git".to_string() }).is_ok());
    assert!(make_credential(&Credential::Username { username: "\0".to_string() }).is_err());
    assert!(make_credential(&Credential::SshAgent { username: "g\0it".to_string() }).is_err());
    let broken_name = Credential::SshKeyFile {
        username: "g\0it".to_string(),
        private_key: "/nowhere/id".to_string(),
        passphrase: None,
    };
    assert!(make_credential(&broken_name).is_err());
    let broken_path = Credential::SshKeyFile {
        username: "git".to_string(),
        private_key: "/nowhere/\0id".to_string(),
        passphrase: Some("secret".to_string()),
    };
    assert!(make_credential(&broken_path).is_err());
}

#[test]
fn a_path_is_staged_by_its_status_and_the_walk_ends_where_there_is_none() {
    let dir = TempDir::new().unwrap();
    let root = dir.path().to_path_buf();
    let repository = Repository::init(root.to_str().unwrap()).unwrap();
    write_file(&root, "foo.txt", b"Hello, world!");
    let mut message = String::new();
    assert_eq!(stage_path(&repository, &mut message, "foo.txt"), 0);
    assert_eq!(message, "foo.txt");
    assert_eq!(stage_path(&repository, &mut message, "fo\0o.txt"), -1);
    assert_eq!(stage_path(&repository, &mut message, "missing.txt"), -1);
    assert_eq!(message, "foo.txt");
    repository.commit().unwrap();
    assert_eq!(stage_path(&repository, &mut message, "foo.txt"), 1);
    assert_eq!(message, "foo.txt");
}

#[test]
fn sending_needs_a_remote_and_headers_that_can_be_sent() {
    let remote_dir = TempDir::new().unwrap();
    Repository::init_bare(remote_dir.path().to_str().unwrap()).unwrap();
    let dir = TempDir::new().unwrap();
    let repository = Repository::init(dir.path().to_str().unwrap()).unwrap();
    repository.commit().unwrap();
    assert_eq!(send(&repository, "origin", &vec![]), Err(RepoError::NoRemote));
    repository.remote("origin", remote_dir.path().to_str().unwrap()).unwrap();
    assert_eq!(send(&repository, "ori\0gin", &vec![]), Err(RepoError::NoRemote));
    assert_eq!(
        send(&repository, "origin", &vec!["a: \0"]),
        Err(RepoError::Backend("a header holds a NUL character".to_string()))
    );
    assert_eq!(send(&repository, "origin", &vec!["a: b"]), Ok(()));
    let remote = git2::Repository::open(remote_dir.path()).unwrap();
    assert!(remote.refname_to_id("refs/heads/main").is_ok());
}

#[test]
fn asking_for_the_default_branch_leaves_an_unasked_negotiation_as_it_was() {
    let remote_dir = TempDir::new().unwrap();
    Repository::init(remote_dir.path().to_str().unwrap()).unwrap().commit().unwrap();
    let dir = TempDir::new().unwrap();
    let repository = Repository::init(dir.path().to_str().unwrap()).unwrap();
    let mut remote = repository.remote("origin", remote_dir.path().to_str().unwrap()).unwrap();
    let mut credentials = CredentialsState::new("git", None);
    assert_eq!(
        default_branch_for_remote(&repository, &mut remote, &mut credentials),
        Ok("main".to_string())
    );
    assert_eq!(credentials.tried(), 0);
    assert!(!credentials.is_exhausted());
    let mut nowhere = repository.remote("nowhere", "/nowhere/at/all").unwrap();
    assert!(matches!(
        default_branch_for_remote(&repository, &mut nowhere, &mut credentials),
        Err(RepoError::Backend(_))
    ));
    assert!(credentials.tried() <= 4);
}
