use cfgtool::error::Error;
use cfgtool::path::FilePath;
use cfgtool::setup::{setup, Creating, Initialising, Loading, Opening, SetupStep, Snapshot};

fn path(parts: &[&str]) -> FilePath {
    FilePath::new(parts.iter().map(|p| p.as_bytes().to_vec()).collect())
}

fn home() -> FilePath {
    path(&["/", "home", "u"])
}

fn repo() -> FilePath {
    path(&["/", "home", "u", ".local", "share", "cfgtool", "repo"])
}

#[test]
fn setup_creates_the_directory_first() {
    assert_eq!(
        setup(home(), repo()),
        SetupStep::CreateDirectory(Creating { home_root: home(), repo_path: repo() })
    );
}

#[test]
fn directory_that_cannot_be_created_ends_the_setup() {
    let creating = Creating { home_root: home(), repo_path: repo() };
    assert_eq!(
        creating.created(Err("Permission denied".to_string())),
        SetupStep::Finish(Err(Error::IoFailure("Permission denied".to_string())))
    );
    let creating = Creating { home_root: home(), repo_path: repo() };
    assert_eq!(
        creating.created(Ok(())),
        SetupStep::Open(Opening { home_root: home(), repo_path: repo() })
    );
}

#[test]
fn existing_repository_is_not_initialised_again() {
    let opening = Opening { home_root: home(), repo_path: repo() };
    assert_eq!(
        opening.opened(true),
        SetupStep::Load(Loading { home_root: home(), repo_path: repo() })
    );
}

#[test]
fn repository_is_initialised_where_none_opens() {
    let opening = Opening { home_root: home(), repo_path: repo() };
    assert_eq!(
        opening.opened(false),
        SetupStep::Initialise(Initialising { home_root: home(), repo_path: repo() })
    );
    let initialising = Initialising { home_root: home(), repo_path: repo() };
    assert_eq!(
        initialising.initialised(Ok(())),
        SetupStep::Load(Loading { home_root: home(), repo_path: repo() })
    );
    let initialising = Initialising { home_root: home(), repo_path: repo() };
    assert_eq!(
        initialising.initialised(Err("not a directory".to_string())),
        SetupStep::Finish(Err(Error::EngineFailure("not a directory".to_string())))
    );
}

#[test]
fn store_is_built_from_what_the_engine_holds() {
    let loading = Loading { home_root: home(), repo_path: repo() };
    let snapshot = Snapshot {
        index_entries: vec![b".bashrc".to_vec(), b".config/git/config".to_vec()],
        remotes: vec!["backup".to_string(), "origin".to_string()],
    };
    let storage = match loading.loaded(Ok(snapshot)) {
        SetupStep::Finish(Ok(storage)) => storage,
        other => panic!("expected the store, got {:?}", other),
    };
    assert_eq!(storage.mapper.home_root, home());
    assert_eq!(storage.mapper.store_root, repo());
    assert_eq!(
        storage.tracked_files,
        vec![path(&[".bashrc"]), path(&[".config", "git", "config"])]
    );
    assert_eq!(storage.get_default_remote(), Some("origin"));
}

#[test]
fn index_that_cannot_be_read_ends_the_setup() {
    let loading = Loading { home_root: home(), repo_path: repo() };
    assert_eq!(
        loading.loaded(Err("index is corrupt".to_string())),
        SetupStep::Finish(Err(Error::EngineFailure("index is corrupt".to_string())))
    );
}
