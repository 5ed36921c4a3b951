//! The store: which files it tracks, where it keeps them, and how a tracked
//! file is copied in, staged and committed.

use vstd::prelude::*;
use vstd::string::*;
use crate::change::{all_readable, changed, detect_changes, is_read_failure, FileContents};
use crate::error::Error;
use crate::mapper::{lemma_tracked_is_relative, PathMapper};
use crate::path::{
    components, copy_bytes, is_normal, joined, lemma_split_joined, parent_of, paths, split,
    FilePath, SLASH,
};
use crate::remote::{
    choose_default, default_remote, fetch_from, fetch_head, main_branch, main_reference, names,
    push_to, record_remote, with_remote, FetchRequest, PushRequest,
};

verus! {

/// What was found at a path in the home directory.
#[derive(Debug, PartialEq, Eq)]
pub enum HomeFile {
    /// Nothing is there.
    Missing,
    /// Something other than a regular file is there; the path is its
    /// canonical form.
    NotRegular(FilePath),
    /// A regular file is there; the path is its canonical form.
    Regular(FilePath),
}

/// The text that opens the message of a commit for which no message was given.
pub open spec fn message_prefix() -> Seq<u8> {
    "Tracked file ".spec_bytes()
}

/// The last component of a tracked file; nothing for a file without components.
pub open spec fn name_of(relative: Seq<Seq<u8>>) -> Seq<u8> {
    if relative.len() > 0 {
        relative.last()
    } else {
        Seq::empty()
    }
}

/// The message of the commit of a tracked file: the given one, or the
/// prefix followed by the name of the file.
pub open spec fn message_for(given: Option<Seq<u8>>, relative: Seq<Seq<u8>>) -> Seq<u8> {
    match given {
        Some(message) => message,
        None => message_prefix() + name_of(relative),
    }
}

/// What tracking a file takes: a copy into the store, then a commit of the
/// staged copy.
#[derive(Debug, PartialEq, Eq)]
pub struct TrackPlan {
    /// The file to copy, in canonical form.
    pub source: FilePath,
    /// Where the copy goes in the store.
    pub destination: FilePath,
    /// The directory of the copy, to be created with its ancestors.
    pub directory: FilePath,
    /// The tracked file.
    pub relative: FilePath,
    /// The name under which the index holds the file.
    pub index_entry: Vec<u8>,
    /// The message of the commit.
    pub message: Vec<u8>,
}

impl TrackPlan {
    /// The plan is the one that tracks the canonical path `source` under
    /// `mapper` with the message `given`.
    pub open spec fn tracks(
        &self,
        mapper: &PathMapper,
        source: Seq<Seq<u8>>,
        given: Option<Seq<u8>>,
    ) -> bool {
        &&& self.source@ == source
        &&& self.relative@ == mapper.relative_of(source)
        &&& self.destination@ == mapper.store_location(self.relative@)
        &&& self.directory@ == parent_of(self.destination@)
        &&& self.index_entry@ == joined(self.relative@)
        &&& self.message@ == message_for(given, self.relative@)
    }
}

/// The bytes of an optional message.
pub open spec fn given_message(message: Option<&Vec<u8>>) -> Option<Seq<u8>> {
    match message {
        Some(bytes) => Some(bytes@),
        None => None,
    }
}

/// What the engine shows at the head of the store.
#[derive(Debug, PartialEq, Eq)]
pub enum Head {
    /// The head cannot be read: the store has no commit yet.
    Unreadable,
    /// The commit at the head.
    Commit(Vec<u8>),
    /// The head can be read but leads to no commit; the text is the
    /// engine's own.
    Broken(String),
}

/// What the engine reports once a file is staged: the tree written from the
/// index, and what it shows at the head.
#[derive(Debug, PartialEq, Eq)]
pub struct Staged {
    pub tree: Vec<u8>,
    pub head: Head,
}

/// The commit to create.
#[derive(Debug, PartialEq, Eq)]
pub struct CommitRequest {
    /// The reference that the commit moves.
    pub reference: String,
    /// The tree of the commit.
    pub tree: Vec<u8>,
    /// The parents of the commit.
    pub parents: Vec<Vec<u8>>,
    /// The message of the commit.
    pub message: Vec<u8>,
}

/// The reference that every commit of the store moves.
pub open spec fn head_reference() -> Seq<char> {
    "HEAD"@
}

/// The parents of the next commit: the commit at the head where there is
/// one, none for the first commit.
pub open spec fn parents_for(head: Head) -> Seq<Seq<u8>> {
    match head {
        Head::Commit(commit) => seq![commit@],
        _ => Seq::empty(),
    }
}

/// `request` is the commit that follows the staging `found` with the
/// message `message`: it moves the head, has the staged tree and the parents
/// that the head gives.
pub open spec fn commits(request: CommitRequest, found: Staged, message: Seq<u8>) -> bool {
    &&& request.reference@ == head_reference()
    &&& request.tree@ == found.tree@
    &&& components(request.parents@) == parents_for(found.head)
    &&& request.message@ == message
}

/// What follows a staging: the commit, or the failure of the engine that
/// could not stage or that shows a head without a commit.
pub open spec fn follows_staging(
    request: Result<CommitRequest, Error>,
    staged: Result<Staged, String>,
    message: Seq<u8>,
) -> bool {
    match staged {
        Ok(found) => match found.head {
            Head::Broken(text) => request == Err::<CommitRequest, Error>(
                Error::EngineFailure(text),
            ),
            _ => request matches Ok(commit) && commits(commit, found, message),
        },
        Err(text) => request == Err::<CommitRequest, Error>(Error::EngineFailure(text)),
    }
}

/// What was found at a location of the store.
#[derive(Debug, PartialEq, Eq)]
pub struct Observation {
    /// Where the caller looked.
    pub location: FilePath,
    /// Whether anything is there.
    pub exists: bool,
}

/// One copy to make: from a file to a file.
#[derive(Debug, PartialEq, Eq)]
pub struct CopyRequest {
    pub from: FilePath,
    pub to: FilePath,
}

/// The two copies of a tracked file that change detection reads.
#[derive(Debug, PartialEq, Eq)]
pub struct ReadRequest {
    /// The tracked file.
    pub relative: FilePath,
    /// Its copy in the store.
    pub store_path: FilePath,
    /// Its copy in the home directory.
    pub home_path: FilePath,
}

/// The tracked files that the entries of an index name.
pub open spec fn listed(entries: Seq<Vec<u8>>) -> Seq<Seq<Seq<u8>>> {
    entries.map_values(|entry: Vec<u8>| split(entry@))
}

/// The store: its two roots, the tracked files as the index named them when
/// the store was opened and as they were added since, and the remotes.
#[derive(Debug, PartialEq, Eq)]
pub struct DotfileStorage {
    pub mapper: PathMapper,
    pub tracked_files: Vec<FilePath>,
    pub remotes: Vec<String>,
}

impl DotfileStorage {
    /// The store paths of tracked files.
    pub open spec fn store_paths(&self, files: Seq<Seq<Seq<u8>>>) -> Seq<Seq<Seq<u8>>> {
        files.map_values(|relative: Seq<Seq<u8>>| self.mapper.store_location(relative))
    }

    /// The home paths of tracked files.
    pub open spec fn home_paths(&self, files: Seq<Seq<Seq<u8>>>) -> Seq<Seq<Seq<u8>>> {
        files.map_values(|relative: Seq<Seq<u8>>| self.mapper.home_location(relative))
    }

    /// `copy` brings the home copy of the tracked file `relative` in line
    /// with its store copy.
    pub open spec fn copies_one_back(&self, copy: CopyRequest, relative: Seq<Seq<u8>>) -> bool {
        &&& copy.from@ == self.mapper.store_location(relative)
        &&& copy.to@ == self.mapper.home_location(relative)
    }

    /// `copies` holds one copy for each of `files`, in their order, from the
    /// store to the home directory.
    pub open spec fn copies_back(
        &self,
        copies: Seq<CopyRequest>,
        files: Seq<Seq<Seq<u8>>>,
    ) -> bool {
        &&& copies.len() == files.len()
        &&& forall|i: int|
            0 <= i < copies.len() ==> self.copies_one_back(#[trigger] copies[i], files[i])
    }

    /// `request` asks for the two copies of the tracked file `relative`.
    pub open spec fn reads_both(&self, request: ReadRequest, relative: Seq<Seq<u8>>) -> bool {
        &&& request.relative@ == relative
        &&& request.store_path@ == self.mapper.store_location(relative)
        &&& request.home_path@ == self.mapper.home_location(relative)
    }

    /// The store as it is opened: the cache of tracked files is rebuilt from
    /// the entries of the index, the remotes are those that the engine lists.
    pub fn new(
        home_root: FilePath,
        repo_path: FilePath,
        index_entries: &Vec<Vec<u8>>,
        remotes: Vec<String>,
    ) -> (storage: DotfileStorage)
        ensures
            storage.mapper.home_root == home_root,
            storage.mapper.store_root == repo_path,
            paths(storage.tracked_files@) == listed(index_entries@),
            storage.remotes == remotes,
    {
        let mut tracked_files: Vec<FilePath> = Vec::new();
        let mut i: usize = 0;
        while i < index_entries.len()
            invariant
                i <= index_entries.len(),
                paths(tracked_files@) == listed(index_entries@).take(i as int),
            decreases index_entries.len() - i,
        {
            let ghost before = paths(tracked_files@);
            tracked_files.push(FilePath::from_index_entry(&index_entries[i]));
            assert(paths(tracked_files@) =~= before.push(split(index_entries@[i as int]@)));
            assert(listed(index_entries@).take(i + 1) =~= before.push(
                split(index_entries@[i as int]@),
            ));
            i += 1;
        }
        assert(listed(index_entries@).take(index_entries.len() as int) =~= listed(index_entries@));
        DotfileStorage { mapper: PathMapper::new(home_root, repo_path), tracked_files, remotes }
    }

    /// Plans the tracking of a file of the home directory. What is not a
    /// regular file is refused first, a file out of scope second. The
    /// message defaults to one that names the file.
    pub fn track_file(
        &self,
        file: &HomeFile,
        commit_msg: Option<&Vec<u8>>,
    ) -> (planned: Result<TrackPlan, Error>)
        ensures
            match planned {
                Ok(plan) => {
                    &&& file matches HomeFile::Regular(source)
                    &&& self.mapper.in_scope(source@)
                    &&& plan.tracks(&self.mapper, source@, given_message(commit_msg))
                },
                Err(e) => match file {
                    HomeFile::Regular(source) => {
                        &&& !self.mapper.in_scope(source@)
                        &&& e == Error::OutOfScopePath
                    },
                    _ => e == Error::NotAFile,
                },
            },
    {
        match file {
            HomeFile::Regular(source) => {
                let relative = match self.mapper.tracked_file(source) {
                    Ok(relative) => relative,
                    Err(e) => {
                        return Err(e);
                    },
                };
                let destination = self.mapper.store_path_of(&relative);
                let directory = destination.parent();
                let index_entry = relative.to_index_entry();
                let message = match commit_msg {
                    Some(given) => copy_bytes(given),
                    None => default_message(&relative),
                };
                Ok(
                    TrackPlan {
                        source: source.clone(),
                        destination,
                        directory,
                        relative,
                        index_entry,
                        message,
                    },
                )
            },
            _ => Err(Error::NotAFile),
        }
    }

    /// Adds a file that was copied into the store to the cache of tracked
    /// files.
    pub fn record_tracked(&mut self, relative: FilePath)
        ensures
            final(self).mapper == old(self).mapper,
            final(self).remotes == old(self).remotes,
            paths(final(self).tracked_files@) == paths(old(self).tracked_files@).push(relative@),
    {
        let ghost before = paths(self.tracked_files@);
        self.tracked_files.push(relative);
        assert(paths(self.tracked_files@) =~= before.push(relative@));
    }

    /// Decides the commit that follows staging: the first commit of a store
    /// has no parent, every later one has the commit at the head as its only
    /// parent.
    pub fn add_and_commit(
        staged: Result<Staged, String>,
        message: Vec<u8>,
    ) -> (request: Result<CommitRequest, Error>)
        ensures
            follows_staging(request, staged, message@),
    {
        let found = match staged {
            Ok(found) => found,
            Err(text) => {
                return Err(Error::EngineFailure(text));
            },
        };
        let mut parents: Vec<Vec<u8>> = Vec::new();
        match found.head {
            Head::Unreadable => {
                assert(components(parents@) =~= Seq::<Seq<u8>>::empty());
            },
            Head::Commit(commit) => {
                parents.push(commit);
                assert(components(parents@) =~= seq![commit@]);
            },
            Head::Broken(text) => {
                return Err(Error::EngineFailure(text));
            },
        }
        Ok(
            CommitRequest {
                reference: String::from_str("HEAD"),
                tree: found.tree,
                parents,
                message,
            },
        )
    }

    /// The store paths of the files that the index names, in its order.
    pub fn get_tracked_files(&self, index_entries: &Vec<Vec<u8>>) -> (files: Vec<FilePath>)
        ensures
            paths(files@) == self.store_paths(listed(index_entries@)),
    {
        let mut files: Vec<FilePath> = Vec::new();
        let mut i: usize = 0;
        while i < index_entries.len()
            invariant
                i <= index_entries.len(),
                paths(files@) == self.store_paths(listed(index_entries@)).take(i as int),
            decreases index_entries.len() - i,
        {
            let ghost before = paths(files@);
            let relative = FilePath::from_index_entry(&index_entries[i]);
            let location = self.mapper.store_path_of(&relative);
            files.push(location);
            assert(paths(files@) =~= before.push(location@));
            assert(self.store_paths(listed(index_entries@)).take(i + 1) =~= before.push(
                location@,
            ));
            i += 1;
        }
        assert(self.store_paths(listed(index_entries@)).take(index_entries.len() as int)
            =~= self.store_paths(listed(index_entries@)));
        files
    }

    /// For every file that the index names, the two copies to read for
    /// change detection.
    pub fn read_requests(&self, index_entries: &Vec<Vec<u8>>) -> (requests: Vec<ReadRequest>)
        ensures
            requests@.len() == index_entries@.len(),
            forall|i: int|
                0 <= i < requests@.len() ==> self.reads_both(
                    #[trigger] requests@[i],
                    split(index_entries@[i]@),
                ),
    {
        let mut requests: Vec<ReadRequest> = Vec::new();
        let mut i: usize = 0;
        while i < index_entries.len()
            invariant
                i <= index_entries.len(),
                requests@.len() == i,
                forall|k: int|
                    0 <= k < i ==> self.reads_both(
                        #[trigger] requests@[k],
                        split(index_entries@[k]@),
                    ),
            decreases index_entries.len() - i,
        {
            let relative = FilePath::from_index_entry(&index_entries[i]);
            let store_path = self.mapper.store_path_of(&relative);
            let home_path = self.mapper.home_path_of(&relative);
            requests.push(ReadRequest { relative, store_path, home_path });
            i += 1;
        }
        requests
    }

    /// The tracked files whose two copies differ: as tracked files, or with
    /// `localise_paths` as paths in the home directory. One copy that could
    /// not be read fails the whole pass.
    pub fn get_changed_files(
        &self,
        files: &Vec<FileContents>,
        localise_paths: bool,
    ) -> (found: Result<Vec<FilePath>, Error>)
        ensures
            match found {
                Ok(records) => all_readable(files@) && paths(records@) == if localise_paths {
                    self.home_paths(changed(files@))
                } else {
                    changed(files@)
                },
                Err(e) => is_read_failure(e, files@),
            },
    {
        let records = match detect_changes(files) {
            Ok(records) => records,
            Err(e) => {
                return Err(e);
            },
        };
        if !localise_paths {
            return Ok(records);
        }
        let mut local: Vec<FilePath> = Vec::new();
        let mut i: usize = 0;
        while i < records.len()
            invariant
                i <= records.len(),
                paths(local@) == self.home_paths(paths(records@)).take(i as int),
            decreases records.len() - i,
        {
            let ghost before = paths(local@);
            let location = self.mapper.home_path_of(&records[i]);
            local.push(location);
            assert(paths(local@) =~= before.push(location@));
            assert(self.home_paths(paths(records@)).take(i + 1) =~= before.push(location@));
            i += 1;
        }
        assert(self.home_paths(paths(records@)).take(records.len() as int) =~= self.home_paths(
            paths(records@),
        ));
        Ok(local)
    }

    /// The copies that bring the home directory back in line with the store:
    /// one for every tracked file whose two copies differ, from the store to
    /// the home directory.
    pub fn copy_repo_to_local(
        &self,
        files: &Vec<FileContents>,
    ) -> (copies: Result<Vec<CopyRequest>, Error>)
        ensures
            match copies {
                Ok(requests) => all_readable(files@) && self.copies_back(
                    requests@,
                    changed(files@),
                ),
                Err(e) => is_read_failure(e, files@),
            },
    {
        let records = match detect_changes(files) {
            Ok(records) => records,
            Err(e) => {
                return Err(e);
            },
        };
        let mut requests: Vec<CopyRequest> = Vec::new();
        let mut i: usize = 0;
        while i < records.len()
            invariant
                i <= records.len(),
                requests@.len() == i,
                paths(records@) == changed(files@),
                forall|k: int|
                    0 <= k < i ==> self.copies_one_back(
                        #[trigger] requests@[k],
                        changed(files@)[k],
                    ),
            decreases records.len() - i,
        {
            assert(paths(records@)[i as int] == records@[i as int]@);
            let from = self.mapper.store_path_of(&records[i]);
            let to = self.mapper.home_path_of(&records[i]);
            requests.push(CopyRequest { from, to });
            i += 1;
        }
        Ok(requests)
    }

    /// Where the store would keep the mirror of a home path; nowhere for a
    /// path out of scope.
    pub fn mirror_of(&self, path: &FilePath) -> (location: Option<FilePath>)
        ensures
            match location {
                Some(mirror) => self.mapper.to_store(path@) == Some(mirror@),
                None => self.mapper.to_store(path@) is None,
            },
    {
        match self.mapper.to_store_path(path) {
            Ok(mirror) => Some(mirror),
            Err(_) => None,
        }
    }

    /// Whether a home path is tracked, going by what was observed in the
    /// store: it is exactly when the observation is of the mirror of the path
    /// and found something there. The cache of tracked files has no say.
    pub fn is_tracked(&self, path: &FilePath, observed: &Observation) -> (answer: bool)
        ensures
            answer == (self.mapper.to_store(path@) == Some(observed.location@)
                && observed.exists),
    {
        match self.mirror_of(path) {
            Some(mirror) => mirror.same_as(&observed.location) && observed.exists,
            None => false,
        }
    }

    /// The default remote: `origin` where it is registered, else the first
    /// remote that was registered, else none.
    pub fn get_default_remote(&self) -> (chosen: Option<&str>)
        ensures
            match chosen {
                Some(name) => default_remote(names(self.remotes@)) == Some(name@),
                None => default_remote(names(self.remotes@)) is None,
            },
    {
        choose_default(&self.remotes)
    }

    /// Takes note of what the engine answered when it was asked to register
    /// `name` or to point it elsewhere. A new name is remembered after those
    /// already known; a failure changes nothing.
    pub fn add_remote(
        &mut self,
        name: &str,
        registered: Result<(), String>,
    ) -> (added: Result<(), Error>)
        ensures
            final(self).mapper == old(self).mapper,
            final(self).tracked_files == old(self).tracked_files,
            match registered {
                Ok(_) => {
                    &&& added is Ok
                    &&& names(final(self).remotes@) == with_remote(names(old(self).remotes@), name@)
                },
                Err(text) => {
                    &&& added == Err::<(), Error>(Error::EngineFailure(text))
                    &&& final(self).remotes == old(self).remotes
                },
            },
    {
        match registered {
            Ok(_) => {
                record_remote(&mut self.remotes, name);
                Ok(())
            },
            Err(text) => Err(Error::EngineFailure(text)),
        }
    }

    /// Starts a pull: the branch `main` is fetched from the default remote.
    pub fn pull_main(&self) -> (request: Result<FetchRequest, Error>)
        ensures
            match request {
                Ok(fetch) => {
                    &&& default_remote(names(self.remotes@)) == Some(fetch.remote@)
                    &&& fetch.branch@ == main_branch()
                    &&& fetch.fetched_reference@ == fetch_head()
                },
                Err(e) => default_remote(names(self.remotes@)) is None && e == Error::NoRemote,
            },
    {
        match self.get_default_remote() {
            Some(remote) => Ok(fetch_from(remote)),
            None => Err(Error::NoRemote),
        }
    }

    /// Plans the push of the local branch `main` to the default remote.
    /// That there is no remote counts before that there is no such branch.
    pub fn push_main(&self, branches: &Vec<String>) -> (request: Result<PushRequest, Error>)
        ensures
            match request {
                Ok(push) => {
                    &&& default_remote(names(self.remotes@)) == Some(push.remote@)
                    &&& names(branches@).contains(main_branch())
                    &&& push.reference@ == main_reference()
                },
                Err(e) => if default_remote(names(self.remotes@)) is None {
                    e == Error::NoRemote
                } else {
                    !names(branches@).contains(main_branch()) && e == Error::NoMainBranch
                },
            },
    {
        match self.get_default_remote() {
            Some(remote) => push_to(remote, branches),
            None => Err(Error::NoRemote),
        }
    }
}

/// A file that was tracked is found again. The place to which its plan
/// copies it is the place where the store is probed for it, and an index that
/// holds the entry which the plan stages lists that place.
pub proof fn lemma_tracked_file_is_listed(
    storage: DotfileStorage,
    plan: TrackPlan,
    source: Seq<Seq<u8>>,
    given: Option<Seq<u8>>,
    index_entries: Seq<Vec<u8>>,
    i: int,
)
    requires
        storage.mapper.in_scope(source),
        plan.tracks(&storage.mapper, source, given),
        0 <= i < index_entries.len(),
        index_entries[i]@ == plan.index_entry@,
    ensures
        storage.mapper.to_store(source) == Some(plan.destination@),
        storage.store_paths(listed(index_entries))[i] == plan.destination@,
        storage.store_paths(listed(index_entries)).contains(plan.destination@),
{
    let relative = plan.relative@;
    lemma_tracked_is_relative(storage.mapper, source);
    assert forall|k: int| 0 <= k < relative.len() implies !(#[trigger] relative[k]).contains(
        SLASH,
    ) by {
        assert(is_normal(relative[k]));
    }
    lemma_split_joined(relative);
    assert(listed(index_entries)[i] == relative);
}

/// Tracking is idempotent in what it asks for: two plans for the same file
/// under the same roots and with the same message ask for the same copy, the
/// same index entry and the same commit message.
pub proof fn lemma_plan_is_determined(
    mapper: PathMapper,
    source: Seq<Seq<u8>>,
    given: Option<Seq<u8>>,
    first: TrackPlan,
    second: TrackPlan,
)
    requires
        first.tracks(&mapper, source, given),
        second.tracks(&mapper, source, given),
    ensures
        first.source@ == second.source@,
        first.destination@ == second.destination@,
        first.directory@ == second.directory@,
        first.relative@ == second.relative@,
        first.index_entry@ == second.index_entry@,
        first.message@ == second.message@,
{
}

/// The message of a commit for which none was given.
pub fn default_message(relative: &FilePath) -> (message: Vec<u8>)
    ensures
        message@ == message_for(None, relative@),
{
    let mut message = "Tracked file ".as_bytes_vec();
    if relative.parts.len() == 0 {
        assert(message@ =~= message_prefix() + Seq::<u8>::empty());
        return message;
    }
    let name = &relative.parts[relative.parts.len() - 1];
    let ghost prefix = message@;
    let mut i: usize = 0;
    while i < name.len()
        invariant
            i <= name.len(),
            message@ == prefix + name@.take(i as int),
        decreases name.len() - i,
    {
        message.push(name[i]);
        assert(message@ =~= prefix + name@.take(i + 1));
        i += 1;
    }
    assert(name@.take(name.len() as int) =~= name@);
    message
}

} // verus!
