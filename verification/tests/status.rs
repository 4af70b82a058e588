use git2kit::head_status::{branch_name, branch_ref, classify_head, HeadProbe, HeadStatus, Resolution};
use git2kit::error::BackendErrorKind;
use git2kit::repository::default_remote::choose_remote;
use git2kit::repository::upstream_status::{no_upstream, UpstreamStatus};
use git2kit::settings::Prune;
use git2kit::working_tree_status::{StatusFlag, StatusFlags, WorkingTreeStatus};
use git2kit::{Origin, RepoError, Repository, Settings};
use std::path::Path;
use temp_dir::TempDir;

fn write_file(root: &Path, name: &str, content: &[u8]) {
    let repo = git2::Repository::open(root).unwrap();
    let blob = repo.blob(content).unwrap();
    let mut builder = repo.treebuilder(None).unwrap();
    builder.insert(name, blob, 0o100644).unwrap();
    let tree = repo.find_object(builder.write().unwrap(), None).unwrap();
    let mut options = git2::build::CheckoutBuilder::new();
    options.force().update_index(false);
    repo.checkout_tree(&tree, Some(&mut options)).unwrap();
}

fn no_flags() -> StatusFlags {
    StatusFlags { new: false, modified: false, deleted: false, renamed: false, typechange: false, conflicted: false }
}

#[test]
fn head_of_a_repository_without_commits_is_unborn_on_its_symbolic_target() {
    let dir = TempDir::new().unwrap();
    let root = dir.path().to_path_buf();
    let repository = Repository::init(root.to_str().unwrap()).unwrap();
    let repo = git2::Repository::open(&root).unwrap();
    let target = repo.find_reference("HEAD").unwrap().symbolic_target().unwrap().unwrap().to_string();
    let expected = target.strip_prefix("refs/heads/").unwrap().to_string();
    assert_eq!(repository.head_status(), Ok(HeadStatus::Unborn { branch_name: expected }));
    repo.set_head("refs/heads/trunk").unwrap();
    assert_eq!(repository.head_status(), Ok(HeadStatus::Unborn { branch_name: "trunk".to_string() }));
}

#[test]
fn head_after_a_commit_is_a_branch() {
    let dir = TempDir::new().unwrap();
    let root = dir.path().to_path_buf();
    let repository = Repository::init(root.to_str().unwrap()).unwrap();
    repository.commit().unwrap();
    assert_eq!(repository.head_status(), Ok(HeadStatus::Branch { name: "main".to_string() }));
}

#[test]
fn probes_of_head_are_judged() {
    let born = HeadProbe::Symbolic { target: "refs/heads/main".to_string(), resolution: Resolution::Resolved };
    assert_eq!(classify_head(born), Ok(HeadStatus::Branch { name: "main".to_string() }));
    let missing = HeadProbe::Symbolic {
        target: "refs/heads/main".to_string(),
        resolution: Resolution::Failed { kind: BackendErrorKind::NotFound, message: "gone".to_string() },
    };
    assert_eq!(classify_head(missing), Ok(HeadStatus::Unborn { branch_name: "main".to_string() }));
    let unborn = HeadProbe::Symbolic {
        target: "refs/heads/dev".to_string(),
        resolution: Resolution::Failed { kind: BackendErrorKind::UnbornBranch, message: "unborn".to_string() },
    };
    assert_eq!(classify_head(unborn), Ok(HeadStatus::Unborn { branch_name: "dev".to_string() }));
    let corrupt = HeadProbe::Symbolic {
        target: "refs/heads/main".to_string(),
        resolution: Resolution::Failed { kind: BackendErrorKind::Other, message: "corrupt".to_string() },
    };
    assert_eq!(classify_head(corrupt), Err(RepoError::Backend("corrupt".to_string())));
    let detached = HeadProbe::Direct { commit_id: Some("abc".to_string()) };
    assert_eq!(classify_head(detached), Ok(HeadStatus::Detached { commit_id: "abc".to_string() }));
    let empty = HeadProbe::Direct { commit_id: None };
    assert_eq!(classify_head(empty), Err(RepoError::Backend("HEAD points at nothing".to_string())));
}

#[test]
fn branch_names_lose_the_prefix_and_nothing_else() {
    assert_eq!(branch_name("refs/heads/main"), "main");
    assert_eq!(branch_name("refs/heads/feature/x"), "feature/x");
    assert_eq!(branch_name("refs/heads/"), "");
    assert_eq!(branch_name("refs/head"), "refs/head");
    assert_eq!(branch_name("refs/tags/v1"), "refs/tags/v1");
    assert_eq!(branch_name("main"), "main");
    assert_eq!(branch_name(""), "");
    assert_eq!(branch_name("refs/heads/\u{e9}t\u{e9}"), "\u{e9}t\u{e9}");
    assert_eq!(branch_ref("main"), "refs/heads/main");
    assert_eq!(branch_name(&branch_ref("refs/heads/x")), "refs/heads/x");
}

#[test]
fn head_knows_its_branch() {
    let branch = HeadStatus::Branch { name: "main".to_string() };
    let unborn = HeadStatus::Unborn { branch_name: "main".to_string() };
    let detached = HeadStatus::Detached { commit_id: "main".to_string() };
    assert!(branch.is_on("main") && unborn.is_on("main") && !detached.is_on("main"));
    assert!(!branch.is_on("other"));
    assert!(unborn.is_unborn() && !branch.is_unborn() && !detached.is_unborn());
    assert!(detached.is_detached() && !branch.is_detached() && !unborn.is_detached());
}

#[test]
fn upstream_of_a_head_off_any_born_branch_is_untracked() {
    let dir = TempDir::new().unwrap();
    let root = dir.path().to_path_buf();
    let repository = Repository::init(root.to_str().unwrap()).unwrap();
    let unborn = repository.head_status().unwrap();
    assert_eq!(repository.upstream_status(&unborn), Ok(UpstreamStatus::Untracked));
    let detached = HeadStatus::Detached { commit_id: "abc".to_string() };
    assert_eq!(repository.upstream_status(&detached), Ok(UpstreamStatus::Untracked));
    repository.commit().unwrap();
    let born = repository.head_status().unwrap();
    assert_eq!(repository.upstream_status(&born), Ok(UpstreamStatus::Untracked));
}

#[test]
fn upstream_counts_ahead_and_behind() {
    let remote_dir = TempDir::new().unwrap();
    let remote_path = remote_dir.path().to_path_buf();
    let remote = Repository::init(remote_path.to_str().unwrap()).unwrap();
    remote.commit().unwrap();
    let origin = Origin::new(remote_path.to_str().unwrap(), None);
    let local_dir = TempDir::new().unwrap();
    let local_path = local_dir.path().to_path_buf();
    let local = Repository::clone(local_path.to_str().unwrap(), &origin).unwrap();
    let head = local.head_status().unwrap();
    assert_eq!(
        local.upstream_status(&head),
        Ok(UpstreamStatus::Tracking { remote_name: "origin".to_string(), ahead: 0, behind: 0 })
    );
    write_file(&local_path, "a.txt", b"a");
    local.commit().unwrap();
    write_file(&local_path, "b.txt", b"b");
    local.commit().unwrap();
    assert_eq!(
        local.upstream_status(&head),
        Ok(UpstreamStatus::Tracking { remote_name: "origin".to_string(), ahead: 2, behind: 0 })
    );
}

#[test]
fn missing_upstream_is_no_error_and_other_failures_are() {
    assert_eq!(no_upstream(BackendErrorKind::NotFound, "none".to_string()), Ok(UpstreamStatus::Untracked));
    assert_eq!(
        no_upstream(BackendErrorKind::Other, "broken".to_string()),
        Err(RepoError::Backend("broken".to_string()))
    );
}

#[test]
fn working_tree_reports_new_and_modified_files() {
    let dir = TempDir::new().unwrap();
    let root = dir.path().to_path_buf();
    let repository = Repository::init(root.to_str().unwrap()).unwrap();
    assert!(repository.working_tree_status().unwrap().is_clean());
    write_file(&root, "foo.txt", b"Hello, world!");
    let status = repository.working_tree_status().unwrap();
    assert_eq!(status.entries.len(), 1);
    assert_eq!(status.entries[0].path, "foo.txt");
    assert_eq!(status.entries[0].flags, StatusFlags { new: true, ..no_flags() });
    repository.commit().unwrap();
    assert!(repository.working_tree_status().unwrap().is_clean());
    write_file(&root, "foo.txt", b"Hello again!");
    let status = repository.working_tree_status().unwrap();
    assert_eq!(status.entries.len(), 1);
    assert_eq!(status.entries[0].flags, StatusFlags { modified: true, ..no_flags() });
}

#[test]
fn status_bits_become_flags() {
    assert_eq!(StatusFlags::from_bits(0), no_flags());
    assert_eq!(StatusFlags::from_bits(1), StatusFlags { new: true, ..no_flags() });
    assert_eq!(StatusFlags::from_bits(128), StatusFlags { new: true, ..no_flags() });
    assert_eq!(StatusFlags::from_bits(2 | 512), StatusFlags { modified: true, deleted: true, ..no_flags() });
    assert_eq!(StatusFlags::from_bits(4), StatusFlags { deleted: true, ..no_flags() });
    assert_eq!(StatusFlags::from_bits(2048), StatusFlags { renamed: true, ..no_flags() });
    assert_eq!(StatusFlags::from_bits(16), StatusFlags { typechange: true, ..no_flags() });
    assert_eq!(StatusFlags::from_bits(32768), StatusFlags { conflicted: true, ..no_flags() });
    assert_eq!(StatusFlags::from_bits(16384), no_flags());
    assert!(!no_flags().any());
    assert!(StatusFlags::from_bits(256).any());
}

#[test]
fn reports_keep_readable_paths_that_have_a_flag() {
    let report = vec![
        (Some("a".to_string()), 128u32),
        (None, 128u32),
        (Some("ignored".to_string()), 16384u32),
        (Some("b".to_string()), 256u32 | 32768u32),
    ];
    let status = WorkingTreeStatus::from_report(report);
    assert_eq!(status.entries.len(), 2);
    assert_eq!(status.entries[0].path, "a");
    assert_eq!(status.entries[0].flags, StatusFlags { new: true, ..no_flags() });
    assert_eq!(status.entries[1].path, "b");
    assert_eq!(status.entries[1].flags, StatusFlags { modified: true, conflicted: true, ..no_flags() });
    assert!(!status.is_clean());
    assert!(WorkingTreeStatus::from_report(vec![]).is_clean());
    assert!(status.contains("a", StatusFlag::New));
    assert!(!status.contains("a", StatusFlag::Modified));
    assert!(status.contains("b", StatusFlag::Modified));
    assert!(status.contains("b", StatusFlag::Conflicted));
    assert!(!status.contains("b", StatusFlag::Deleted));
    assert!(!status.contains("ignored", StatusFlag::New));
    assert!(!status.contains("c", StatusFlag::New));
    let all = StatusFlags { new: true, modified: true, deleted: true, renamed: true, typechange: true, conflicted: true };
    assert!(all.has(StatusFlag::Renamed) && all.has(StatusFlag::Typechange) && all.has(StatusFlag::Deleted));
    assert!(!no_flags().has(StatusFlag::New));
}

#[test]
fn the_remote_is_chosen_by_preference_then_by_being_alone() {
    let origin = Some("origin".to_string());
    let backup = Some("backup".to_string());
    let preferred = "backup".to_string();
    assert_eq!(choose_remote(None, &vec![]), Err(RepoError::NoRemote));
    assert_eq!(choose_remote(Some(&preferred), &vec![]), Err(RepoError::NoRemote));
    assert_eq!(choose_remote(None, &vec![origin.clone()]), Ok("origin".to_string()));
    assert_eq!(choose_remote(Some(&preferred), &vec![origin.clone()]), Ok("origin".to_string()));
    assert_eq!(choose_remote(None, &vec![origin.clone(), backup.clone()]), Err(RepoError::AmbiguousRemote));
    assert_eq!(choose_remote(Some(&preferred), &vec![origin.clone(), backup.clone()]), Ok("backup".to_string()));
    let absent = "nowhere".to_string();
    assert_eq!(
        choose_remote(Some(&absent), &vec![origin.clone(), backup.clone()]),
        Err(RepoError::AmbiguousRemote)
    );
    assert_eq!(
        choose_remote(None, &vec![None]),
        Err(RepoError::Backend("the remote's name is not valid UTF-8".to_string()))
    );
}

#[test]
fn default_remote_follows_the_configuration() {
    let dir = TempDir::new().unwrap();
    let root = dir.path().to_path_buf();
    let repository = Repository::init(root.to_str().unwrap()).unwrap();
    let settings = Settings::new();
    assert_eq!(repository.default_remote(&settings).err(), Some(RepoError::NoRemote));
    repository.remote("origin", "https://x").unwrap();
    assert_eq!(repository.default_remote(&settings).unwrap().name().unwrap(), Some("origin"));
    repository.remote("backup", "https://y").unwrap();
    assert_eq!(repository.default_remote(&settings).err(), Some(RepoError::AmbiguousRemote));
    let mut chosen = Settings::new();
    chosen.default_remote = Some("backup".to_string());
    assert_eq!(repository.default_remote(&chosen).unwrap().name().unwrap(), Some("backup"));
}

#[test]
fn default_branch_comes_from_settings_first_and_never_fails() {
    let dir = TempDir::new().unwrap();
    let root = dir.path().to_path_buf();
    let repository = Repository::init(root.to_str().unwrap()).unwrap();
    let mut settings = Settings::new();
    let (branch, remote) = repository.try_default_branch(&settings);
    assert!(branch.is_none() && remote.is_none());
    settings.default_branch = Some("trunk".to_string());
    let (branch, remote) = repository.try_default_branch(&settings);
    assert_eq!(branch, Some("trunk".to_string()));
    assert!(remote.is_none());
}

#[test]
fn default_branch_is_asked_of_the_remote() {
    let remote_dir = TempDir::new().unwrap();
    let remote_path = remote_dir.path().to_path_buf();
    Repository::init(remote_path.to_str().unwrap()).unwrap().commit().unwrap();
    let origin = Origin::new(remote_path.to_str().unwrap(), None);
    let local_dir = TempDir::new().unwrap();
    let local = Repository::clone(local_dir.path().to_str().unwrap(), &origin).unwrap();
    let (branch, remote) = local.try_default_branch(&Settings::new());
    assert_eq!(branch, Some("main".to_string()));
    assert!(remote.is_some());
    let (status, _) = local.status(&Settings::new()).unwrap();
    assert_eq!(status.default_branch, Some("main".to_string()));
    assert_eq!(status.head, HeadStatus::Branch { name: "main".to_string() });
    assert!(status.working_tree.is_clean());
}

#[test]
fn prune_policy_follows_the_setting() {
    let mut settings = Settings::new();
    assert_eq!(settings.prune_policy(), Prune::Unspecified);
    settings.prune = Some(true);
    assert_eq!(settings.prune_policy(), Prune::On);
    settings.prune = Some(false);
    assert_eq!(settings.prune_policy(), Prune::Off);
}
