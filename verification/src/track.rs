//! The exchange by which a file of the home directory gets tracked. Every
//! step names what the caller has to do; the caller does it and hands back
//! what it found, and the next step follows from that alone.

use vstd::prelude::*;
use crate::error::Error;
use crate::path::{paths, FilePath};
use crate::store::{follows_staging, CommitRequest, DotfileStorage, HomeFile, Staged, TrackPlan};

verus! {

/// How an exchange that tracks a file ends when nothing fails.
#[derive(Debug, PartialEq, Eq)]
pub enum TrackOutcome {
    /// The store already held a mirror of the file; nothing was done.
    AlreadyTracked,
    /// The file was copied into the store and committed.
    Committed,
}

/// What the caller has to do next.
#[derive(Debug, PartialEq, Eq)]
pub enum TrackStep {
    /// Find out what is at the path to track, and its canonical form.
    Locate(Locating),
    /// Find out whether anything exists at `location`.
    Probe(Probing),
    /// Create `plan.directory` with its ancestors, then copy `plan.source`
    /// to `plan.destination`.
    Copy(Copying),
    /// Add `plan.index_entry` to the index, write the index and its tree, and
    /// look up the commit at the head.
    Stage(Staging),
    /// Create the commit that `request` describes.
    Commit(Committing),
    /// The exchange is over.
    Finish(Result<TrackOutcome, Error>),
}

/// The exchange waits to learn what is at the path.
#[derive(Debug, PartialEq, Eq)]
pub struct Locating {
    /// The message for the commit, where one was given.
    pub message: Option<Vec<u8>>,
    /// Whether a file that the store already mirrors is left alone.
    pub unless_tracked: bool,
}

/// The exchange waits to learn whether the store mirrors the file.
#[derive(Debug, PartialEq, Eq)]
pub struct Probing {
    pub location: FilePath,
    pub file: HomeFile,
    pub message: Option<Vec<u8>>,
}

/// The exchange waits for the copy into the store.
#[derive(Debug, PartialEq, Eq)]
pub struct Copying {
    pub plan: TrackPlan,
}

/// The exchange waits for the index.
#[derive(Debug, PartialEq, Eq)]
pub struct Staging {
    pub plan: TrackPlan,
}

/// The exchange waits for the commit.
#[derive(Debug, PartialEq, Eq)]
pub struct Committing {
    pub request: CommitRequest,
}

/// The bytes of an optional message that is owned.
pub open spec fn owned_message(message: Option<Vec<u8>>) -> Option<Seq<u8>> {
    match message {
        Some(bytes) => Some(bytes@),
        None => None,
    }
}

/// The location to probe before `file` is tracked: the mirror of its
/// canonical form, where the file exists, is in scope, and a file that is
/// already mirrored is to be left alone.
pub open spec fn probe_for(
    storage: &DotfileStorage,
    unless_tracked: bool,
    file: HomeFile,
) -> Option<Seq<Seq<u8>>> {
    if unless_tracked {
        match file {
            HomeFile::Missing => None,
            HomeFile::NotRegular(path) => storage.mapper.to_store(path@),
            HomeFile::Regular(path) => storage.mapper.to_store(path@),
        }
    } else {
        None
    }
}

/// `step` opens the tracking of `file`: the copy that the plan for the file
/// asks for, or the end of the exchange where no plan can be made. What is
/// not a regular file is refused first, a file out of scope second.
pub open spec fn opens_tracking(
    step: TrackStep,
    storage: &DotfileStorage,
    file: HomeFile,
    message: Option<Seq<u8>>,
) -> bool {
    match file {
        HomeFile::Regular(source) => if storage.mapper.in_scope(source@) {
            &&& step matches TrackStep::Copy(copying)
            &&& copying.plan.tracks(&storage.mapper, source@, message)
        } else {
            step == TrackStep::Finish(Err(Error::OutOfScopePath))
        },
        _ => step == TrackStep::Finish(Err(Error::NotAFile)),
    }
}

/// The step that opens the tracking of `file`.
fn open_tracking(
    storage: &DotfileStorage,
    file: &HomeFile,
    message: &Option<Vec<u8>>,
) -> (step: TrackStep)
    ensures
        opens_tracking(step, storage, *file, owned_message(*message)),
{
    let planned = match message {
        Some(bytes) => storage.track_file(file, Some(bytes)),
        None => storage.track_file(file, None),
    };
    match planned {
        Ok(plan) => TrackStep::Copy(Copying { plan }),
        Err(e) => TrackStep::Finish(Err(e)),
    }
}

impl Locating {
    /// Takes what was found at the path. Where a mirrored file is to be left
    /// alone and the file has a mirror location, that location is probed
    /// first; else the tracking opens at once.
    pub fn located(self, storage: &DotfileStorage, file: HomeFile) -> (step: TrackStep)
        ensures
            match probe_for(storage, self.unless_tracked, file) {
                Some(location) => {
                    &&& step matches TrackStep::Probe(probing)
                    &&& probing.location@ == location
                    &&& probing.file == file
                    &&& probing.message == self.message
                },
                None => opens_tracking(step, storage, file, owned_message(self.message)),
            },
    {
        if self.unless_tracked {
            let mirror = match &file {
                HomeFile::Missing => None,
                HomeFile::NotRegular(path) => storage.mirror_of(path),
                HomeFile::Regular(path) => storage.mirror_of(path),
            };
            match mirror {
                Some(location) => {
                    return TrackStep::Probe(Probing { location, file, message: self.message });
                },
                None => {},
            }
        }
        open_tracking(storage, &file, &self.message)
    }
}

impl Probing {
    /// Takes whether anything exists at the location. A file that the store
    /// mirrors is left alone; for any other the tracking opens.
    pub fn probed(self, storage: &DotfileStorage, exists: bool) -> (step: TrackStep)
        ensures
            exists ==> step == TrackStep::Finish(Ok(TrackOutcome::AlreadyTracked)),
            !exists ==> opens_tracking(step, storage, self.file, owned_message(self.message)),
    {
        if exists {
            TrackStep::Finish(Ok(TrackOutcome::AlreadyTracked))
        } else {
            open_tracking(storage, &self.file, &self.message)
        }
    }
}

impl Copying {
    /// Takes how the copy went. After a copy that was made the file is in
    /// the cache of tracked files and is staged next; a copy that failed ends
    /// the exchange and leaves the cache as it was.
    pub fn copied(
        self,
        storage: &mut DotfileStorage,
        result: Result<(), String>,
    ) -> (step: TrackStep)
        ensures
            final(storage).mapper == old(storage).mapper,
            final(storage).remotes == old(storage).remotes,
            match result {
                Ok(_) => {
                    &&& step == TrackStep::Stage(Staging { plan: self.plan })
                    &&& paths(final(storage).tracked_files@) == paths(
                        old(storage).tracked_files@,
                    ).push(self.plan.relative@)
                },
                Err(text) => {
                    &&& step == TrackStep::Finish(Err(Error::IoFailure(text)))
                    &&& final(storage).tracked_files == old(storage).tracked_files
                },
            },
    {
        match result {
            Ok(_) => {
                storage.record_tracked(self.plan.relative.clone());
                TrackStep::Stage(Staging { plan: self.plan })
            },
            Err(text) => TrackStep::Finish(Err(Error::IoFailure(text))),
        }
    }
}

impl Staging {
    /// Takes what the engine reports of the staged file. The first commit of
    /// a store gets no parent, every later one the commit at the head; a head
    /// without a commit ends the exchange.
    pub fn staged(self, result: Result<Staged, String>) -> (step: TrackStep)
        ensures
            match step {
                TrackStep::Commit(committing) => follows_staging(
                    Ok(committing.request),
                    result,
                    self.plan.message@,
                ),
                TrackStep::Finish(Err(e)) => follows_staging(Err(e), result, self.plan.message@),
                _ => false,
            },
    {
        match DotfileStorage::add_and_commit(result, self.plan.message) {
            Ok(request) => TrackStep::Commit(Committing { request }),
            Err(e) => TrackStep::Finish(Err(e)),
        }
    }
}

impl Committing {
    /// Takes how the commit went, which ends the exchange.
    pub fn committed(self, result: Result<(), String>) -> (step: TrackStep)
        ensures
            match result {
                Ok(_) => step == TrackStep::Finish(Ok(TrackOutcome::Committed)),
                Err(text) => step == TrackStep::Finish(Err(Error::EngineFailure(text))),
            },
    {
        match result {
            Ok(_) => TrackStep::Finish(Ok(TrackOutcome::Committed)),
            Err(text) => TrackStep::Finish(Err(Error::EngineFailure(text))),
        }
    }
}

} // verus!
