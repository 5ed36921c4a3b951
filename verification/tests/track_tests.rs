use cfgtool::change::{detect_changes, FileContents};
use cfgtool::error::Error;
use cfgtool::path::FilePath;
use cfgtool::store::{DotfileStorage, Head, HomeFile, Staged};
use cfgtool::track::{Locating, Probing, TrackOutcome, TrackStep};

fn path(parts: &[&str]) -> FilePath {
    FilePath::new(parts.iter().map(|p| p.as_bytes().to_vec()).collect())
}

fn storage() -> DotfileStorage {
    DotfileStorage::new(path(&["/", "home", "u"]), path(&["/", "srv", "repo"]), &vec![], vec![])
}

fn bashrc() -> HomeFile {
    HomeFile::Regular(path(&["/", "home", "u", ".bashrc"]))
}

fn locating(step: TrackStep) -> Locating {
    match step {
        TrackStep::Locate(waiting) => waiting,
        other => panic!("expected a request to locate, got {:?}", other),
    }
}

#[test]
fn first_track_then_update_makes_two_commits() {
    let mut s = storage();

    let step = locating(s.track()).located(&s, bashrc());
    let probing = match step {
        TrackStep::Probe(probing) => probing,
        other => panic!("expected a probe, got {:?}", other),
    };
    assert_eq!(probing.location, path(&["/", "srv", "repo", ".bashrc"]));
    let copying = match probing.probed(&s, false) {
        TrackStep::Copy(copying) => copying,
        other => panic!("expected a copy, got {:?}", other),
    };
    assert_eq!(copying.plan.source, path(&["/", "home", "u", ".bashrc"]));
    assert_eq!(copying.plan.destination, path(&["/", "srv", "repo", ".bashrc"]));
    assert_eq!(copying.plan.directory, path(&["/", "srv", "repo"]));
    let staging = match copying.copied(&mut s, Ok(())) {
        TrackStep::Stage(staging) => staging,
        other => panic!("expected staging, got {:?}", other),
    };
    assert_eq!(staging.plan.index_entry, b".bashrc".to_vec());
    assert_eq!(s.tracked_files, vec![path(&[".bashrc"])]);
    let committing = match staging.staged(Ok(Staged { tree: vec![1; 20], head: Head::Unreadable })) {
        TrackStep::Commit(committing) => committing,
        other => panic!("expected a commit, got {:?}", other),
    };
    assert!(committing.request.parents.is_empty());
    assert_eq!(committing.request.message, b"Tracked file .bashrc".to_vec());
    assert_eq!(committing.request.tree, vec![1; 20]);
    assert_eq!(committing.request.reference, "HEAD");
    assert_eq!(committing.committed(Ok(())), TrackStep::Finish(Ok(TrackOutcome::Committed)));

    let edited = vec![FileContents {
        relative: path(&[".bashrc"]),
        store: Ok(b"export A=1\n".to_vec()),
        home: Ok(b"export A=1\nalias ll='ls -l'\n".to_vec()),
    }];
    assert_eq!(detect_changes(&edited), Ok(vec![path(&[".bashrc"])]));
    assert_eq!(s.get_changed_files(&edited, true), Ok(vec![path(&["/", "home", "u", ".bashrc"])]));
    assert_eq!(s.update(Ok(edited)), Ok(vec![path(&["/", "home", "u", ".bashrc"])]));

    let step = locating(s.commit_change(b"add alias".to_vec())).located(&s, bashrc());
    let copying = match step {
        TrackStep::Copy(copying) => copying,
        other => panic!("expected a copy, got {:?}", other),
    };
    let staging = match copying.copied(&mut s, Ok(())) {
        TrackStep::Stage(staging) => staging,
        other => panic!("expected staging, got {:?}", other),
    };
    let first_commit = vec![9; 20];
    let committing =
        match staging.staged(Ok(Staged { tree: vec![2; 20], head: Head::Commit(first_commit.clone()) })) {
            TrackStep::Commit(committing) => committing,
            other => panic!("expected a commit, got {:?}", other),
        };
    assert_eq!(committing.request.parents, vec![first_commit]);
    assert_eq!(committing.request.message, b"add alias".to_vec());
    assert_eq!(committing.committed(Ok(())), TrackStep::Finish(Ok(TrackOutcome::Committed)));

    let copied = vec![FileContents {
        relative: path(&[".bashrc"]),
        store: Ok(b"export A=1\nalias ll='ls -l'\n".to_vec()),
        home: Ok(b"export A=1\nalias ll='ls -l'\n".to_vec()),
    }];
    assert_eq!(detect_changes(&copied), Ok(vec![]));
}

#[test]
fn track_leaves_a_mirrored_file_alone() {
    let s = storage();
    let step = locating(s.track()).located(&s, bashrc());
    let probing = match step {
        TrackStep::Probe(probing) => probing,
        other => panic!("expected a probe, got {:?}", other),
    };
    assert_eq!(probing.probed(&s, true), TrackStep::Finish(Ok(TrackOutcome::AlreadyTracked)));
}

#[test]
fn track_finds_a_mirrored_directory_before_it_refuses_it() {
    let s = storage();
    let directory = HomeFile::NotRegular(path(&["/", "home", "u", ".config"]));
    let step = locating(s.track()).located(&s, directory);
    let probing = match step {
        TrackStep::Probe(probing) => probing,
        other => panic!("expected a probe, got {:?}", other),
    };
    assert_eq!(probing.location, path(&["/", "srv", "repo", ".config"]));
    let again = Probing {
        location: probing.location.clone(),
        file: HomeFile::NotRegular(path(&["/", "home", "u", ".config"])),
        message: None,
    };
    assert_eq!(probing.probed(&s, true), TrackStep::Finish(Ok(TrackOutcome::AlreadyTracked)));
    assert_eq!(again.probed(&s, false), TrackStep::Finish(Err(Error::NotAFile)));
}

#[test]
fn track_of_a_missing_file_fails_at_once() {
    let s = storage();
    assert_eq!(
        locating(s.track()).located(&s, HomeFile::Missing),
        TrackStep::Finish(Err(Error::NotAFile))
    );
}

#[test]
fn track_of_a_file_outside_home_is_not_probed() {
    let s = storage();
    assert_eq!(
        locating(s.track()).located(&s, HomeFile::Regular(path(&["/", "etc", "hosts"]))),
        TrackStep::Finish(Err(Error::OutOfScopePath))
    );
    assert_eq!(
        locating(s.track()).located(&s, HomeFile::NotRegular(path(&["/", "etc"]))),
        TrackStep::Finish(Err(Error::NotAFile))
    );
}

#[test]
fn commit_change_does_not_probe_the_store() {
    let s = storage();
    let step = locating(s.commit_change(b"m".to_vec())).located(&s, bashrc());
    match step {
        TrackStep::Copy(copying) => assert_eq!(copying.plan.message, b"m".to_vec()),
        other => panic!("expected a copy, got {:?}", other),
    }
    assert_eq!(
        locating(s.commit_change(b"m".to_vec())).located(&s, HomeFile::Missing),
        TrackStep::Finish(Err(Error::NotAFile))
    );
}

#[test]
fn failed_copy_ends_the_exchange_and_leaves_the_cache() {
    let mut s = storage();
    let step = locating(s.commit_change(b"m".to_vec())).located(&s, bashrc());
    let copying = match step {
        TrackStep::Copy(copying) => copying,
        other => panic!("expected a copy, got {:?}", other),
    };
    assert_eq!(
        copying.copied(&mut s, Err("No space left on device".to_string())),
        TrackStep::Finish(Err(Error::IoFailure("No space left on device".to_string())))
    );
    assert!(s.tracked_files.is_empty());
}

#[test]
fn failure_of_the_engine_ends_the_exchange() {
    let mut s = storage();
    let step = locating(s.commit_change(b"m".to_vec())).located(&s, bashrc());
    let copying = match step {
        TrackStep::Copy(copying) => copying,
        other => panic!("expected a copy, got {:?}", other),
    };
    let staging = match copying.copied(&mut s, Ok(())) {
        TrackStep::Stage(staging) => staging,
        other => panic!("expected staging, got {:?}", other),
    };
    assert_eq!(
        staging.staged(Err("index is locked".to_string())),
        TrackStep::Finish(Err(Error::EngineFailure("index is locked".to_string())))
    );

    let step = locating(s.commit_change(b"m".to_vec())).located(&s, bashrc());
    let copying = match step {
        TrackStep::Copy(copying) => copying,
        other => panic!("expected a copy, got {:?}", other),
    };
    let staging = match copying.copied(&mut s, Ok(())) {
        TrackStep::Stage(staging) => staging,
        other => panic!("expected staging, got {:?}", other),
    };
    let committing = match staging.staged(Ok(Staged { tree: vec![3; 20], head: Head::Unreadable })) {
        TrackStep::Commit(committing) => committing,
        other => panic!("expected a commit, got {:?}", other),
    };
    assert_eq!(
        committing.committed(Err("no signature configured".to_string())),
        TrackStep::Finish(Err(Error::EngineFailure("no signature configured".to_string())))
    );
}

#[test]
fn tracking_the_same_unchanged_file_twice_records_nothing_new() {
    let mut s = storage();
    let same = vec![FileContents {
        relative: path(&[".bashrc"]),
        store: Ok(b"export A=1\n".to_vec()),
        home: Ok(b"export A=1\n".to_vec()),
    }];
    let mut plans = Vec::new();
    for _ in 0..2 {
        assert_eq!(detect_changes(&same), Ok(vec![]));
        let step = locating(s.commit_change(b"again".to_vec())).located(&s, bashrc());
        let copying = match step {
            TrackStep::Copy(copying) => copying,
            other => panic!("expected a copy, got {:?}", other),
        };
        plans.push(s.track_file(&bashrc(), Some(&b"again".to_vec())).unwrap());
        assert_eq!(copying.plan, plans[plans.len() - 1]);
        match copying.copied(&mut s, Ok(())) {
            TrackStep::Stage(_) => {}
            other => panic!("expected staging, got {:?}", other),
        }
    }
    assert_eq!(plans[0], plans[1]);
}
