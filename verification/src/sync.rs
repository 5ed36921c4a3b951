//! The exchange that synchronises the store with its remote: local drift is
//! looked for first, then the branch `main` is pulled, pushed, and the home
//! directory is brought in line with the store.

use vstd::prelude::*;
use vstd::string::*;
use crate::change::{all_readable, changed, is_read_failure, FileContents};
use crate::error::Error;
use crate::path::{paths, FilePath};
use crate::remote::{
    default_remote, empty_remote_text, fast_forward_main, fast_forward_note, fetch_head,
    judge_fetch, lemma_default_exists, lemma_with_remote_keeps, main_branch, main_reference, names,
    preferred_remote, verdict_of, with_remote, FastForwardRequest, FetchRequest, FetchVerdict,
    MergeAnalysis, PushRequest,
};
use crate::store::{CopyRequest, DotfileStorage};

verus! {

/// How a synchronisation ends when nothing fails.
#[derive(Debug, PartialEq, Eq)]
pub enum SyncOutcome {
    /// Files of the home directory differ from the store and `force` was not
    /// given: nothing was fetched, pushed or copied. The files are given as
    /// paths in the home directory.
    Aborted(Vec<FilePath>),
    /// The branch was pulled and pushed, and the home directory follows the
    /// store.
    Synced,
}

/// What the caller has to do next.
#[derive(Debug, PartialEq, Eq)]
pub enum SyncStep {
    /// Read both copies of every file that the index names.
    Read(Detecting),
    /// No remote is registered: ask for the address of one and register it
    /// under `name`.
    AddRemote(Asking),
    /// Fetch as `request` says and analyse what was fetched against the head.
    Fetch(Fetching),
    /// Point `request.reference` at what `request.target` holds, make it the
    /// head and check the head out over the working tree, whatever the
    /// working tree holds.
    FastForward(Forwarding),
    /// List the names of the branches of the store.
    ListBranches(Listing),
    /// Push as `request` says.
    Push(Pushing),
    /// Read both copies of every file that the index names, once more.
    ReadAgain(Reconciling),
    /// Make the copies, in their order.
    Copy(CopyingBack),
    /// The exchange is over.
    Finish(Result<SyncOutcome, Error>),
}

/// The exchange waits for the copies of the tracked files.
#[derive(Debug, PartialEq, Eq)]
pub struct Detecting {
    /// Whether local drift is to be overwritten.
    pub force: bool,
}

/// The exchange waits for a remote to be registered.
#[derive(Debug, PartialEq, Eq)]
pub struct Asking {
    /// The name under which the remote is to be registered.
    pub name: String,
}

/// The exchange waits for the fetch.
#[derive(Debug, PartialEq, Eq)]
pub struct Fetching {
    pub request: FetchRequest,
}

/// The exchange waits for the fast-forward.
#[derive(Debug, PartialEq, Eq)]
pub struct Forwarding {
    pub request: FastForwardRequest,
}

/// The exchange waits for the names of the branches.
#[derive(Debug, PartialEq, Eq)]
pub struct Listing {}

/// The exchange waits for the push.
#[derive(Debug, PartialEq, Eq)]
pub struct Pushing {
    pub request: PushRequest,
}

/// The exchange waits for the copies of the tracked files as they are after
/// the pull.
#[derive(Debug, PartialEq, Eq)]
pub struct Reconciling {}

/// The exchange waits for the copies into the home directory.
#[derive(Debug, PartialEq, Eq)]
pub struct CopyingBack {
    pub copies: Vec<CopyRequest>,
}

/// `step` ends the exchange with the failure of the first file of which a
/// copy could not be read.
pub open spec fn fails_on_unreadable(step: SyncStep, files: Seq<FileContents>) -> bool {
    step matches SyncStep::Finish(Err(e)) && is_read_failure(e, files)
}

/// `step` is a fetch of `main` from the default remote of `storage`.
pub open spec fn fetches_main(step: SyncStep, storage: &DotfileStorage) -> bool {
    &&& step matches SyncStep::Fetch(fetching)
    &&& default_remote(names(storage.remotes@)) == Some(fetching.request.remote@)
    &&& fetching.request.branch@ == main_branch()
    &&& fetching.request.fetched_reference@ == fetch_head()
}

/// `step` opens the pull: the fetch from the default remote, or where there
/// is no remote the request for one.
pub open spec fn opens_pull(step: SyncStep, storage: &DotfileStorage) -> bool {
    if default_remote(names(storage.remotes@)) is Some {
        fetches_main(step, storage)
    } else {
        step matches SyncStep::AddRemote(asking) && asking.name@ == preferred_remote()
    }
}

/// `step` is the push of the local branch `main` to the default remote of
/// `storage`, or the end of the exchange where that push cannot be made:
/// that there is no remote counts before that there is no such branch.
pub open spec fn opens_push(
    step: SyncStep,
    storage: &DotfileStorage,
    branches: Seq<Seq<char>>,
) -> bool {
    match default_remote(names(storage.remotes@)) {
        Some(remote) => if branches.contains(main_branch()) {
            &&& step matches SyncStep::Push(pushing)
            &&& pushing.request.remote@ == remote
            &&& pushing.request.reference@ == main_reference()
        } else {
            step == SyncStep::Finish(Err(Error::NoMainBranch))
        },
        None => step == SyncStep::Finish(Err(Error::NoRemote)),
    }
}

/// `step` ends the exchange because files drifted: it names every file
/// whose two copies differ, as a path in the home directory.
pub open spec fn aborts_on_drift(
    step: SyncStep,
    storage: &DotfileStorage,
    files: Seq<FileContents>,
) -> bool {
    &&& step matches SyncStep::Finish(Ok(SyncOutcome::Aborted(drifted)))
    &&& paths(drifted@) == storage.home_paths(changed(files))
}

/// `step` asks for one copy for every file whose two copies differ, from
/// the store to the home directory, in the order of the list.
pub open spec fn copies_back(
    step: SyncStep,
    storage: &DotfileStorage,
    files: Seq<FileContents>,
) -> bool {
    step matches SyncStep::Copy(copying) && storage.copies_back(copying.copies@, changed(files))
}

/// `step` follows the first reading of `files`: the failure of a file that
/// could not be read; without `force`, the end of the exchange where a file
/// drifted; else the opening of the pull.
pub open spec fn follows_detection(
    step: SyncStep,
    storage: &DotfileStorage,
    force: bool,
    files: Seq<FileContents>,
) -> bool {
    if !all_readable(files) {
        fails_on_unreadable(step, files)
    } else if !force && changed(files).len() > 0 {
        aborts_on_drift(step, storage, files)
    } else {
        opens_pull(step, storage)
    }
}

/// `step` follows the second reading of `files`: the failure of a file that
/// could not be read, or the copies that bring the home directory in line.
pub open spec fn follows_reconciliation(
    step: SyncStep,
    storage: &DotfileStorage,
    files: Seq<FileContents>,
) -> bool {
    if !all_readable(files) {
        fails_on_unreadable(step, files)
    } else {
        copies_back(step, storage, files)
    }
}

/// Drift stops a synchronisation exactly when `force` is not given: the
/// step that follows a reading in which a file drifted ends the exchange
/// without `force`, and with `force` it opens the pull as if nothing had
/// drifted.
pub proof fn lemma_drift_stops_only_without_force(
    step: SyncStep,
    storage: &DotfileStorage,
    force: bool,
    files: Seq<FileContents>,
)
    requires
        all_readable(files),
        follows_detection(step, storage, force, files),
    ensures
        !force && changed(files).len() > 0 ==> step matches SyncStep::Finish(
            Ok(SyncOutcome::Aborted(_)),
        ),
        force || changed(files).len() == 0 ==> step is Fetch || step is AddRemote,
{
}

impl Detecting {
    /// Takes the copies of the tracked files, or the failure of the engine
    /// that could not name them. Without `force`, one file that differs ends
    /// the exchange before anything is fetched, pushed or copied. With
    /// `force`, or where nothing differs, the pull opens.
    pub fn read(
        self,
        storage: &DotfileStorage,
        files: Result<Vec<FileContents>, String>,
    ) -> (step: SyncStep)
        ensures
            match files {
                Ok(list) => follows_detection(step, storage, self.force, list@),
                Err(text) => step == SyncStep::Finish(Err(Error::EngineFailure(text))),
            },
    {
        let files = match files {
            Ok(list) => list,
            Err(text) => {
                return SyncStep::Finish(Err(Error::EngineFailure(text)));
            },
        };
        let drifted = match storage.get_changed_files(&files, true) {
            Ok(drifted) => drifted,
            Err(e) => {
                return SyncStep::Finish(Err(e));
            },
        };
        assert(drifted@.len() == changed(files@).len()) by {
            assert(paths(drifted@).len() == drifted@.len());
            assert(storage.home_paths(changed(files@)).len() == changed(files@).len());
        }
        if drifted.len() != 0 && !self.force {
            return SyncStep::Finish(Ok(SyncOutcome::Aborted(drifted)));
        }
        match storage.pull_main() {
            Ok(request) => SyncStep::Fetch(Fetching { request }),
            Err(_) => SyncStep::AddRemote(Asking { name: String::from_str("origin") }),
        }
    }
}

impl Asking {
    /// Takes what came of the question: nothing where no address was given,
    /// else what the engine answered when it was asked to register the
    /// remote. A remote that was registered is fetched from; a store that
    /// still has no remote ends the exchange, and so does a failure of the
    /// engine.
    pub fn answered(
        self,
        storage: &mut DotfileStorage,
        registered: Option<Result<(), String>>,
    ) -> (step: SyncStep)
        ensures
            final(storage).mapper == old(storage).mapper,
            final(storage).tracked_files == old(storage).tracked_files,
            match registered {
                Some(Ok(_)) => {
                    &&& names(final(storage).remotes@) == with_remote(
                        names(old(storage).remotes@),
                        self.name@,
                    )
                    &&& fetches_main(step, final(storage))
                },
                Some(Err(text)) => {
                    &&& final(storage).remotes == old(storage).remotes
                    &&& step == SyncStep::Finish(Err(Error::EngineFailure(text)))
                },
                None => {
                    &&& final(storage).remotes == old(storage).remotes
                    &&& if default_remote(names(old(storage).remotes@)) is Some {
                        fetches_main(step, old(storage))
                    } else {
                        step == SyncStep::Finish(Err(Error::NoRemote))
                    }
                },
            },
    {
        match registered {
            Some(outcome) => match storage.add_remote(self.name.as_str(), outcome) {
                Ok(_) => {
                    proof {
                        lemma_with_remote_keeps(names(old(storage).remotes@), self.name@);
                        lemma_default_exists(names(storage.remotes@));
                    }
                },
                Err(e) => {
                    return SyncStep::Finish(Err(e));
                },
            },
            None => {},
        }
        match storage.pull_main() {
            Ok(request) => SyncStep::Fetch(Fetching { request }),
            Err(e) => SyncStep::Finish(Err(e)),
        }
    }
}

impl Fetching {
    /// Takes what the fetch showed. A branch that is up to date goes on to
    /// the push, and so does a remote that holds no commit yet. A branch that
    /// is behind is moved forward first. A history that has diverged ends
    /// the exchange, and so does any other failure of the engine.
    pub fn fetched(self, result: Result<MergeAnalysis, String>) -> (step: SyncStep)
        ensures
            match verdict_of(result) {
                Ok(FetchVerdict::FastForward) => {
                    &&& step matches SyncStep::FastForward(forwarding)
                    &&& forwarding.request.reference@ == main_reference()
                    &&& forwarding.request.target@ == fetch_head()
                    &&& forwarding.request.note@ == fast_forward_note()
                },
                Ok(_) => step == SyncStep::ListBranches(Listing {  }),
                Err(e) => step == SyncStep::Finish(Err(e)),
            },
            (result matches Err(text) && text@ == empty_remote_text()) ==> step
                == SyncStep::ListBranches(Listing {  }),
    {
        match judge_fetch(result) {
            Ok(FetchVerdict::FastForward) => SyncStep::FastForward(
                Forwarding { request: fast_forward_main() },
            ),
            Ok(_) => SyncStep::ListBranches(Listing {  }),
            Err(e) => SyncStep::Finish(Err(e)),
        }
    }
}

impl Forwarding {
    /// Takes how the fast-forward went; the push follows it.
    pub fn forwarded(self, result: Result<(), String>) -> (step: SyncStep)
        ensures
            match result {
                Ok(_) => step == SyncStep::ListBranches(Listing {  }),
                Err(text) => step == SyncStep::Finish(Err(Error::EngineFailure(text))),
            },
    {
        match result {
            Ok(_) => SyncStep::ListBranches(Listing {  }),
            Err(text) => SyncStep::Finish(Err(Error::EngineFailure(text))),
        }
    }
}

impl Listing {
    /// Takes the names of the branches and plans the push.
    pub fn listed(self, storage: &DotfileStorage, result: Result<Vec<String>, String>) -> (step:
        SyncStep)
        ensures
            match result {
                Ok(branches) => opens_push(step, storage, names(branches@)),
                Err(text) => step == SyncStep::Finish(Err(Error::EngineFailure(text))),
            },
    {
        match result {
            Ok(branches) => match storage.push_main(&branches) {
                Ok(request) => SyncStep::Push(Pushing { request }),
                Err(e) => SyncStep::Finish(Err(e)),
            },
            Err(text) => SyncStep::Finish(Err(Error::EngineFailure(text))),
        }
    }
}

impl Pushing {
    /// Takes how the push went; the tracked files are read again after it.
    pub fn pushed(self, result: Result<(), String>) -> (step: SyncStep)
        ensures
            match result {
                Ok(_) => step == SyncStep::ReadAgain(Reconciling {  }),
                Err(text) => step == SyncStep::Finish(Err(Error::EngineFailure(text))),
            },
    {
        match result {
            Ok(_) => SyncStep::ReadAgain(Reconciling {  }),
            Err(text) => SyncStep::Finish(Err(Error::EngineFailure(text))),
        }
    }
}

impl Reconciling {
    /// Takes the copies of the tracked files as they are after the pull, or
    /// the failure of the engine that could not name them. Every file that
    /// differs is copied from the store over its home copy.
    pub fn read(
        self,
        storage: &DotfileStorage,
        files: Result<Vec<FileContents>, String>,
    ) -> (step: SyncStep)
        ensures
            match files {
                Ok(list) => follows_reconciliation(step, storage, list@),
                Err(text) => step == SyncStep::Finish(Err(Error::EngineFailure(text))),
            },
    {
        match files {
            Ok(list) => match storage.copy_repo_to_local(&list) {
                Ok(copies) => SyncStep::Copy(CopyingBack { copies }),
                Err(e) => SyncStep::Finish(Err(e)),
            },
            Err(text) => SyncStep::Finish(Err(Error::EngineFailure(text))),
        }
    }
}

impl CopyingBack {
    /// Takes how the copies went, which ends the exchange.
    pub fn copied(self, result: Result<(), String>) -> (step: SyncStep)
        ensures
            match result {
                Ok(_) => step == SyncStep::Finish(Ok(SyncOutcome::Synced)),
                Err(text) => step == SyncStep::Finish(Err(Error::IoFailure(text))),
            },
    {
        match result {
            Ok(_) => SyncStep::Finish(Ok(SyncOutcome::Synced)),
            Err(text) => SyncStep::Finish(Err(Error::IoFailure(text))),
        }
    }
}

} // verus!
