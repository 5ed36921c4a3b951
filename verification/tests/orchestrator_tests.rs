use cfgtool::change::FileContents;
use cfgtool::error::Error;
use cfgtool::orchestrator::{read_answer, report_on, Answer, StatusLine, StatusReport};
use cfgtool::path::FilePath;
use cfgtool::store::DotfileStorage;
use cfgtool::track::{Locating, TrackStep};

fn path(parts: &[&str]) -> FilePath {
    FilePath::new(parts.iter().map(|p| p.as_bytes().to_vec()).collect())
}

fn storage() -> DotfileStorage {
    DotfileStorage::new(path(&["/", "home", "u"]), path(&["/", "srv", "repo"]), &vec![], vec![])
}

#[test]
fn answers_are_y_and_n_and_nothing_else() {
    assert_eq!(read_answer("y"), Answer::Yes);
    assert_eq!(read_answer("n"), Answer::No);
    assert_eq!(read_answer("Y"), Answer::Invalid);
    assert_eq!(read_answer("yes"), Answer::Invalid);
    assert_eq!(read_answer(""), Answer::Invalid);
    assert_eq!(read_answer(" y"), Answer::Invalid);
}

#[test]
fn track_locates_the_file_and_gives_no_message() {
    assert_eq!(
        storage().track(),
        TrackStep::Locate(Locating { message: None, unless_tracked: true })
    );
}

#[test]
fn commit_change_carries_the_message() {
    assert_eq!(
        storage().commit_change(b"add alias".to_vec()),
        TrackStep::Locate(Locating { message: Some(b"add alias".to_vec()), unless_tracked: false })
    );
}

#[test]
fn update_lists_changed_files_as_home_paths() {
    let files = vec![
        FileContents {
            relative: path(&[".config", "a"]),
            store: Ok(b"1".to_vec()),
            home: Ok(b"2".to_vec()),
        },
        FileContents { relative: path(&[".b"]), store: Ok(b"1".to_vec()), home: Ok(b"1".to_vec()) },
    ];
    assert_eq!(storage().update(Ok(files)), Ok(vec![path(&["/", "home", "u", ".config", "a"])]));
    assert_eq!(storage().update(Ok(vec![])), Ok(vec![]));
}

#[test]
fn update_fails_on_an_unreadable_copy() {
    let files = vec![FileContents {
        relative: path(&[".b"]),
        store: Ok(vec![]),
        home: Err("Is a directory".to_string()),
    }];
    assert_eq!(storage().update(Ok(files)), Err(Error::IoFailure("Is a directory".to_string())));
    assert_eq!(
        storage().update(Err("index is corrupt".to_string())),
        Err(Error::EngineFailure("index is corrupt".to_string()))
    );
}

#[test]
fn status_of_an_empty_index_says_so() {
    assert_eq!(storage().status(Ok(vec![])), Ok(StatusReport::NothingTracked));
    assert_eq!(report_on(&vec![]), StatusReport::NothingTracked);
}

#[test]
fn status_fails_where_the_index_cannot_be_listed() {
    assert_eq!(
        storage().status(Err("index is corrupt".to_string())),
        Err(Error::EngineFailure("index is corrupt".to_string()))
    );
}

#[test]
fn status_reports_name_and_place_of_every_file() {
    let index = vec![b".bashrc".to_vec(), b".config/nvim/init.lua".to_vec()];
    assert_eq!(
        storage().status(Ok(index)),
        Ok(StatusReport::Files(vec![
            StatusLine { name: b".bashrc".to_vec(), location: path(&[".bashrc"]) },
            StatusLine {
                name: b"init.lua".to_vec(),
                location: path(&[".config", "nvim", "init.lua"]),
            },
        ]))
    );
}
