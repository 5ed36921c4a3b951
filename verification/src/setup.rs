//! The exchange that opens the store: a repository that exists is opened as
//! it is, and only where none can be opened is a new one initialised.

use vstd::prelude::*;
use crate::error::Error;
use crate::path::{paths, FilePath};
use crate::store::{listed, DotfileStorage};

verus! {

/// What the engine holds when the store is opened.
#[derive(Debug, PartialEq, Eq)]
pub struct Snapshot {
    /// The names under which the index holds its files.
    pub index_entries: Vec<Vec<u8>>,
    /// The names of the registered remotes, in the order of registration.
    pub remotes: Vec<String>,
}

/// What the caller has to do next.
#[derive(Debug, PartialEq, Eq)]
pub enum SetupStep {
    /// Create the directory `repo_path` with its ancestors.
    CreateDirectory(Creating),
    /// Open the repository at `repo_path`.
    Open(Opening),
    /// Initialise a repository at `repo_path`.
    Initialise(Initialising),
    /// Read the entries of the index and the names of the remotes.
    Load(Loading),
    /// The exchange is over.
    Finish(Result<DotfileStorage, Error>),
}

/// The exchange waits for the directory of the store.
#[derive(Debug, PartialEq, Eq)]
pub struct Creating {
    pub home_root: FilePath,
    pub repo_path: FilePath,
}

/// The exchange waits to learn whether a repository could be opened.
#[derive(Debug, PartialEq, Eq)]
pub struct Opening {
    pub home_root: FilePath,
    pub repo_path: FilePath,
}

/// The exchange waits for the new repository.
#[derive(Debug, PartialEq, Eq)]
pub struct Initialising {
    pub home_root: FilePath,
    pub repo_path: FilePath,
}

/// The exchange waits for what the engine holds.
#[derive(Debug, PartialEq, Eq)]
pub struct Loading {
    pub home_root: FilePath,
    pub repo_path: FilePath,
}

/// Starts to open the store at `repo_path` for the home directory
/// `home_root`.
pub fn setup(home_root: FilePath, repo_path: FilePath) -> (step: SetupStep)
    ensures
        step == SetupStep::CreateDirectory(Creating { home_root, repo_path }),
{
    SetupStep::CreateDirectory(Creating { home_root, repo_path })
}

impl Creating {
    /// Takes how the creation of the directory went.
    pub fn created(self, result: Result<(), String>) -> (step: SetupStep)
        ensures
            match result {
                Ok(_) => step == SetupStep::Open(
                    Opening { home_root: self.home_root, repo_path: self.repo_path },
                ),
                Err(text) => step == SetupStep::Finish(Err(Error::IoFailure(text))),
            },
    {
        match result {
            Ok(_) => SetupStep::Open(
                Opening { home_root: self.home_root, repo_path: self.repo_path },
            ),
            Err(text) => SetupStep::Finish(Err(Error::IoFailure(text))),
        }
    }
}

impl Opening {
    /// Takes whether a repository could be opened. One that could is used as
    /// it is, with its history; a new one is initialised only where none
    /// could.
    pub fn opened(self, opened: bool) -> (step: SetupStep)
        ensures
            opened ==> step == SetupStep::Load(
                Loading { home_root: self.home_root, repo_path: self.repo_path },
            ),
            !opened ==> step == SetupStep::Initialise(
                Initialising { home_root: self.home_root, repo_path: self.repo_path },
            ),
    {
        if opened {
            SetupStep::Load(Loading { home_root: self.home_root, repo_path: self.repo_path })
        } else {
            SetupStep::Initialise(
                Initialising { home_root: self.home_root, repo_path: self.repo_path },
            )
        }
    }
}

impl Initialising {
    /// Takes how the initialisation went.
    pub fn initialised(self, result: Result<(), String>) -> (step: SetupStep)
        ensures
            match result {
                Ok(_) => step == SetupStep::Load(
                    Loading { home_root: self.home_root, repo_path: self.repo_path },
                ),
                Err(text) => step == SetupStep::Finish(Err(Error::EngineFailure(text))),
            },
    {
        match result {
            Ok(_) => SetupStep::Load(
                Loading { home_root: self.home_root, repo_path: self.repo_path },
            ),
            Err(text) => SetupStep::Finish(Err(Error::EngineFailure(text))),
        }
    }
}

impl Loading {
    /// Takes what the engine holds and builds the store from it: the cache
    /// of tracked files mirrors the index, the remotes are those registered.
    pub fn loaded(self, result: Result<Snapshot, String>) -> (step: SetupStep)
        ensures
            match result {
                Ok(snapshot) => step matches SetupStep::Finish(Ok(storage))
                    && storage.mapper.home_root == self.home_root && storage.mapper.store_root
                    == self.repo_path && paths(storage.tracked_files@) == listed(
                    snapshot.index_entries@,
                ) && storage.remotes == snapshot.remotes,
                Err(text) => step == SetupStep::Finish(Err(Error::EngineFailure(text))),
            },
    {
        match result {
            Ok(snapshot) => SetupStep::Finish(
                Ok(
                    DotfileStorage::new(
                        self.home_root,
                        self.repo_path,
                        &snapshot.index_entries,
                        snapshot.remotes,
                    ),
                ),
            ),
            Err(text) => SetupStep::Finish(Err(Error::EngineFailure(text))),
        }
    }
}

} // verus!
