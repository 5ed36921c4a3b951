//! The four operations that the command line offers, and the reading of an
//! answer to a question put to the user.

use vstd::prelude::*;
use vstd::string::*;
use crate::change::{all_readable, changed, is_read_failure, FileContents};
use crate::error::Error;
use crate::path::{copy_bytes, paths, split, FilePath};
use crate::store::{name_of, DotfileStorage};
use crate::sync::{Detecting, SyncStep};
use crate::track::{Locating, TrackStep};

verus! {

/// One tracked file as the status shows it.
#[derive(Debug, PartialEq, Eq)]
pub struct StatusLine {
    /// The name of the file.
    pub name: Vec<u8>,
    /// Where the file lies below the home directory.
    pub location: FilePath,
}

/// What the status shows.
#[derive(Debug, PartialEq, Eq)]
pub enum StatusReport {
    /// The index names no file.
    NothingTracked,
    /// One line for every file that the index names, in its order.
    Files(Vec<StatusLine>),
}

/// An answer of the user to a question that takes yes or no.
#[derive(Debug, Clone, Copy, PartialEq, Eq)]
pub enum Answer {
    Yes,
    No,
    Invalid,
}

/// The answer that a line stands for: `y` is yes, `n` is no, nothing else
/// is valid.
pub open spec fn answer_of(line: Seq<char>) -> Answer {
    if line == "y"@ {
        Answer::Yes
    } else if line == "n"@ {
        Answer::No
    } else {
        Answer::Invalid
    }
}

/// The line of the status for the tracked file that an index entry names.
pub open spec fn is_line_for(line: StatusLine, entry: Seq<u8>) -> bool {
    &&& line.location@ == split(entry)
    &&& line.name@ == name_of(split(entry))
}

/// `report` shows the files that `index_entries` name: one line for each, in
/// their order, and for an index without entries that nothing is tracked.
pub open spec fn shows(report: StatusReport, index_entries: Seq<Vec<u8>>) -> bool {
    match report {
        StatusReport::NothingTracked => index_entries.len() == 0,
        StatusReport::Files(lines) => {
            &&& index_entries.len() > 0
            &&& lines@.len() == index_entries.len()
            &&& forall|i: int|
                0 <= i < lines@.len() ==> is_line_for(#[trigger] lines@[i], index_entries[i]@)
        },
    }
}

/// Reads an answer.
pub fn read_answer(line: &str) -> (answer: Answer)
    ensures
        answer == answer_of(line@),
{
    let given = String::from_str(line);
    if given == String::from_str("y") {
        Answer::Yes
    } else if given == String::from_str("n") {
        Answer::No
    } else {
        Answer::Invalid
    }
}

/// The status of the files that the index names.
pub fn report_on(index_entries: &Vec<Vec<u8>>) -> (report: StatusReport)
    ensures
        shows(report, index_entries@),
{
    if index_entries.len() == 0 {
        return StatusReport::NothingTracked;
    }
    let mut lines: Vec<StatusLine> = Vec::new();
    let mut i: usize = 0;
    while i < index_entries.len()
        invariant
            i <= index_entries.len(),
            lines@.len() == i,
            forall|k: int| 0 <= k < i ==> is_line_for(#[trigger] lines@[k], index_entries@[k]@),
        decreases index_entries.len() - i,
    {
        let location = FilePath::from_index_entry(&index_entries[i]);
        let name = if location.parts.len() > 0 {
            copy_bytes(&location.parts[location.parts.len() - 1])
        } else {
            Vec::new()
        };
        lines.push(StatusLine { name, location });
        i += 1;
    }
    StatusReport::Files(lines)
}

impl DotfileStorage {
    /// Tracks a file unless the store already mirrors it. The commit gets the
    /// default message.
    pub fn track(&self) -> (step: TrackStep)
        ensures
            step == TrackStep::Locate(Locating { message: None, unless_tracked: true }),
    {
        TrackStep::Locate(Locating { message: None, unless_tracked: true })
    }

    /// Lists the files of the home directory that differ from the store,
    /// given the copies of the tracked files or the failure of the engine
    /// that could not name them. For each file that is listed the caller
    /// decides whether it is committed, and with which message.
    pub fn update(
        &self,
        files: Result<Vec<FileContents>, String>,
    ) -> (found: Result<Vec<FilePath>, Error>)
        ensures
            match files {
                Ok(list) => match found {
                    Ok(drifted) => {
                        &&& all_readable(list@)
                        &&& paths(drifted@) == self.home_paths(changed(list@))
                    },
                    Err(e) => is_read_failure(e, list@),
                },
                Err(text) => found == Err::<Vec<FilePath>, Error>(Error::EngineFailure(text)),
            },
    {
        match files {
            Ok(list) => self.get_changed_files(&list, true),
            Err(text) => Err(Error::EngineFailure(text)),
        }
    }

    /// Commits a file that is known to have changed, with the given message,
    /// whether or not the store mirrors it.
    pub fn commit_change(&self, message: Vec<u8>) -> (step: TrackStep)
        ensures
            step == TrackStep::Locate(Locating { message: Some(message), unless_tracked: false }),
    {
        TrackStep::Locate(Locating { message: Some(message), unless_tracked: false })
    }

    /// Synchronises the store with its remote. Without `force`, files that
    /// drifted stop the synchronisation before it changes anything.
    pub fn sync(&self, force: bool) -> (step: SyncStep)
        ensures
            step == SyncStep::Read(Detecting { force }),
    {
        SyncStep::Read(Detecting { force })
    }

    /// Reports every file that the index names with its name and its place
    /// below the home directory, given the entries of the index or the
    /// failure of the engine that could not list them. That nothing is
    /// tracked is reported as such.
    pub fn status(
        &self,
        index: Result<Vec<Vec<u8>>, String>,
    ) -> (report: Result<StatusReport, Error>)
        ensures
            match index {
                Ok(entries) => report matches Ok(shown) && shows(shown, entries@),
                Err(text) => report == Err::<StatusReport, Error>(Error::EngineFailure(text)),
            },
    {
        match index {
            Ok(entries) => Ok(report_on(&entries)),
            Err(text) => Err(Error::EngineFailure(text)),
        }
    }
}

} // verus!
