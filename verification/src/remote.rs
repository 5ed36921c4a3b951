//! The remote of the store: which one is used, and what a fetch and a push
//! of the branch `main` are allowed to do.

use vstd::prelude::*;
use vstd::string::*;
use crate::error::Error;

verus! {

/// The texts of a list of names.
pub open spec fn names(list: Seq<String>) -> Seq<Seq<char>> {
    list.map_values(|name: String| name@)
}

/// The remote that is preferred over every other.
pub open spec fn preferred_remote() -> Seq<char> {
    "origin"@
}

/// The one branch that is synchronised.
pub open spec fn main_branch() -> Seq<char> {
    "main"@
}

/// The full name of the reference of the local branch `main`.
pub open spec fn main_reference() -> Seq<char> {
    "refs/heads/main"@
}

/// The reference in which a fetch leaves what it brought.
pub open spec fn fetch_head() -> Seq<char> {
    "FETCH_HEAD"@
}

/// The note written to the log of the reference that a fast-forward moves.
pub open spec fn fast_forward_note() -> Seq<char> {
    "Fast-Forward"@
}

/// The text with which the engine fails when the remote has no commit yet.
pub open spec fn empty_remote_text() -> Seq<char> {
    "corrupted loose reference file: FETCH_HEAD"@
}

/// The default remote among the registered ones: `origin` where it is
/// registered, else the first that was registered, else none.
pub open spec fn default_remote(remotes: Seq<Seq<char>>) -> Option<Seq<char>> {
    if remotes.contains(preferred_remote()) {
        Some(preferred_remote())
    } else if remotes.len() > 0 {
        Some(remotes[0])
    } else {
        None
    }
}

/// The registered remotes after `name` was registered or pointed elsewhere:
/// a new name goes to the end, a known one stays where it is.
pub open spec fn with_remote(remotes: Seq<Seq<char>>, name: Seq<char>) -> Seq<Seq<char>> {
    if remotes.contains(name) {
        remotes
    } else {
        remotes.push(name)
    }
}

/// Whether a list of names holds `name`.
pub fn holds_name(list: &Vec<String>, name: &str) -> (found: bool)
    ensures
        found == names(list@).contains(name@),
{
    let wanted = String::from_str(name);
    let mut i: usize = 0;
    while i < list.len()
        invariant
            i <= list.len(),
            wanted@ == name@,
            forall|k: int| 0 <= k < i ==> names(list@)[k] != name@,
        decreases list.len() - i,
    {
        if list[i] == wanted {
            assert(names(list@)[i as int] == name@);
            return true;
        }
        i += 1;
    }
    false
}

/// Picks the default remote.
pub fn choose_default<'a>(remotes: &'a Vec<String>) -> (chosen: Option<&'a str>)
    ensures
        match chosen {
            Some(name) => default_remote(names(remotes@)) == Some(name@),
            None => default_remote(names(remotes@)) is None,
        },
{
    if holds_name(remotes, "origin") {
        Some("origin")
    } else if remotes.len() != 0 {
        Some(remotes[0].as_str())
    } else {
        None
    }
}

/// Records a remote that the engine has registered.
pub fn record_remote(remotes: &mut Vec<String>, name: &str)
    ensures
        names(final(remotes)@) == with_remote(names(old(remotes)@), name@),
{
    if !holds_name(remotes, name) {
        let ghost before = names(remotes@);
        remotes.push(String::from_str(name));
        assert(names(remotes@) =~= before.push(name@));
    }
}

/// What the engine found when it compared the local branch with what was
/// fetched.
#[derive(Debug, Clone, Copy, PartialEq, Eq)]
pub struct MergeAnalysis {
    /// The local branch already holds everything that was fetched.
    pub up_to_date: bool,
    /// The local branch can be moved forward to what was fetched.
    pub fast_forward: bool,
}

/// How the local branch stands to the remote one.
#[derive(Debug, Clone, Copy, PartialEq, Eq)]
pub enum BranchState {
    /// Nothing is to be taken from the remote: the two are equal, or the
    /// local branch is ahead.
    UpToDate,
    /// The remote is ahead and the local branch can be moved forward to it.
    Behind,
    /// Both have commits that the other lacks.
    Diverged,
}

impl MergeAnalysis {
    /// The state that an analysis shows; being up to date decides first.
    pub open spec fn branch_state(&self) -> BranchState {
        if self.up_to_date {
            BranchState::UpToDate
        } else if self.fast_forward {
            BranchState::Behind
        } else {
            BranchState::Diverged
        }
    }

    /// Reads the state off the analysis.
    pub fn state(&self) -> (state: BranchState)
        ensures
            state == self.branch_state(),
    {
        if self.up_to_date {
            BranchState::UpToDate
        } else if self.fast_forward {
            BranchState::Behind
        } else {
            BranchState::Diverged
        }
    }
}

/// What a fetch asks of the caller next.
#[derive(Debug, Clone, Copy, PartialEq, Eq)]
pub enum FetchVerdict {
    /// Nothing to take: go on.
    UpToDate,
    /// Move the local branch forward to what was fetched, then go on.
    FastForward,
    /// The remote holds no commit yet: nothing to take, go on.
    EmptyRemote,
}

/// The verdict on a fetch, for every answer of the engine.
pub open spec fn verdict_of(fetched: Result<MergeAnalysis, String>) -> Result<FetchVerdict, Error> {
    match fetched {
        Ok(analysis) => match analysis.branch_state() {
            BranchState::UpToDate => Ok(FetchVerdict::UpToDate),
            BranchState::Behind => Ok(FetchVerdict::FastForward),
            BranchState::Diverged => Err(Error::NonFastForward),
        },
        Err(text) => if text@ == empty_remote_text() {
            Ok(FetchVerdict::EmptyRemote)
        } else {
            Err(Error::EngineFailure(text))
        },
    }
}

/// Whether a failure of the engine is the one that an empty remote causes.
pub fn is_empty_remote(text: &String) -> (empty: bool)
    ensures
        empty == (text@ == empty_remote_text()),
{
    let expected = String::from_str("corrupted loose reference file: FETCH_HEAD");
    *text == expected
}

/// Decides what follows a fetch. A remote without commits is no failure; a
/// history that has diverged is one, and nothing is merged.
pub fn judge_fetch(fetched: Result<MergeAnalysis, String>) -> (verdict: Result<FetchVerdict, Error>)
    ensures
        verdict == verdict_of(fetched),
{
    match fetched {
        Ok(analysis) => match analysis.state() {
            BranchState::UpToDate => Ok(FetchVerdict::UpToDate),
            BranchState::Behind => Ok(FetchVerdict::FastForward),
            BranchState::Diverged => Err(Error::NonFastForward),
        },
        Err(text) => {
            if is_empty_remote(&text) {
                Ok(FetchVerdict::EmptyRemote)
            } else {
                Err(Error::EngineFailure(text))
            }
        },
    }
}

/// What to fetch: the branch `main` of a remote, read back from `FETCH_HEAD`.
#[derive(Debug, PartialEq, Eq)]
pub struct FetchRequest {
    pub remote: String,
    pub branch: String,
    pub fetched_reference: String,
}

/// How to move the local branch forward: the reference to move, the
/// reference that holds what was fetched, and the note for the log of the
/// first. The working tree then follows the head.
#[derive(Debug, PartialEq, Eq)]
pub struct FastForwardRequest {
    pub reference: String,
    pub target: String,
    pub note: String,
}

/// What to push: a reference, to a remote.
#[derive(Debug, PartialEq, Eq)]
pub struct PushRequest {
    pub remote: String,
    pub reference: String,
}

/// The fetch of `main` from `remote`.
pub fn fetch_from(remote: &str) -> (request: FetchRequest)
    ensures
        request.remote@ == remote@,
        request.branch@ == main_branch(),
        request.fetched_reference@ == fetch_head(),
{
    FetchRequest {
        remote: String::from_str(remote),
        branch: String::from_str("main"),
        fetched_reference: String::from_str("FETCH_HEAD"),
    }
}

/// The fast-forward of the local branch `main`.
pub fn fast_forward_main() -> (request: FastForwardRequest)
    ensures
        request.reference@ == main_reference(),
        request.target@ == fetch_head(),
        request.note@ == fast_forward_note(),
{
    FastForwardRequest {
        reference: String::from_str("refs/heads/main"),
        target: String::from_str("FETCH_HEAD"),
        note: String::from_str("Fast-Forward"),
    }
}

/// The push of the local branch `main` to `remote`, where the store has
/// that branch.
pub fn push_to(remote: &str, branches: &Vec<String>) -> (request: Result<PushRequest, Error>)
    ensures
        match request {
            Ok(push) => names(branches@).contains(main_branch()) && push.remote@ == remote@
                && push.reference@ == main_reference(),
            Err(e) => !names(branches@).contains(main_branch()) && e == Error::NoMainBranch,
        },
{
    if holds_name(branches, "main") {
        Ok(
            PushRequest {
                remote: String::from_str(remote),
                reference: String::from_str("refs/heads/main"),
            },
        )
    } else {
        Err(Error::NoMainBranch)
    }
}

/// A remote that holds no commit yet is no failure of the fetch, and it
/// asks for nothing to be merged.
pub proof fn lemma_empty_remote_is_no_failure(text: String)
    requires
        text@ == empty_remote_text(),
    ensures
        verdict_of(Err(text)) == Ok::<FetchVerdict, Error>(FetchVerdict::EmptyRemote),
{
}

/// Nothing is ever merged: whatever the engine answers, the verdict is to go
/// on as things are, to move the branch forward, or to fail.
pub proof fn lemma_only_fast_forward(fetched: Result<MergeAnalysis, String>)
    ensures
        fetched matches Ok(analysis) ==> (verdict_of(fetched) is Err <==> analysis.branch_state()
            == BranchState::Diverged),
        fetched matches Ok(analysis) && analysis.branch_state() == BranchState::Diverged
            ==> verdict_of(fetched) == Err::<FetchVerdict, Error>(Error::NonFastForward),
{
}

/// Where `origin` is registered it is the default remote, whatever was
/// registered before it.
pub proof fn lemma_origin_is_default(remotes: Seq<Seq<char>>)
    requires
        remotes.contains(preferred_remote()),
    ensures
        default_remote(remotes) == Some(preferred_remote()),
{
}

/// A remote that was registered is among the remotes afterwards, and the
/// remotes that were there before keep their places.
pub proof fn lemma_with_remote_keeps(remotes: Seq<Seq<char>>, name: Seq<char>)
    ensures
        with_remote(remotes, name).contains(name),
        remotes.is_prefix_of(with_remote(remotes, name)),
        with_remote(with_remote(remotes, name), name) == with_remote(remotes, name),
{
    let after = with_remote(remotes, name);
    if !remotes.contains(name) {
        assert(after[remotes.len() as int] == name);
        assert(remotes =~= after.subrange(0, remotes.len() as int));
    } else {
        assert(remotes =~= after.subrange(0, remotes.len() as int));
    }
}

/// After `origin` was registered it is the default remote, whatever was
/// registered before.
pub proof fn lemma_origin_after_registration(remotes: Seq<Seq<char>>)
    ensures
        default_remote(with_remote(remotes, preferred_remote())) == Some(preferred_remote()),
{
    lemma_with_remote_keeps(remotes, preferred_remote());
}

/// There is a default remote exactly when a remote is registered.
pub proof fn lemma_default_exists(remotes: Seq<Seq<char>>)
    ensures
        default_remote(remotes) is Some <==> remotes.len() > 0,
        default_remote(remotes) matches Some(name) ==> remotes.contains(name),
{
    if remotes.len() > 0 && !remotes.contains(preferred_remote()) {
        assert(remotes[0] == remotes[0]);
    }
}

} // verus!
