//! Detection of drift between the store copy and the home copy of tracked files.

use vstd::prelude::*;
use crate::error::Error;
use crate::path::{bytes_eq, paths, FilePath};

verus! {

/// What was read of one tracked file: the bytes of its two copies, or for a
/// copy that could not be read the text of the failure.
#[derive(Debug, PartialEq, Eq)]
pub struct FileContents {
    /// The tracked file, as seen from either root.
    pub relative: FilePath,
    /// The copy in the store.
    pub store: Result<Vec<u8>, String>,
    /// The copy in the home directory.
    pub home: Result<Vec<u8>, String>,
}

impl FileContents {
    /// Both copies were read.
    pub open spec fn readable(&self) -> bool {
        self.store is Ok && self.home is Ok
    }

    /// Both copies were read and they do not hold the same bytes; a difference
    /// in length is a difference.
    pub open spec fn differs(&self) -> bool {
        self.readable() && self.store->Ok_0@ != self.home->Ok_0@
    }

    /// The text of the failure of a file that is not readable: that of the
    /// store copy where both failed.
    pub open spec fn failure(&self) -> Seq<char> {
        if self.store is Err {
            self.store->Err_0@
        } else {
            self.home->Err_0@
        }
    }
}

/// Every file of the list was read on both sides.
pub open spec fn all_readable(files: Seq<FileContents>) -> bool {
    forall|i: int| 0 <= i < files.len() ==> (#[trigger] files[i]).readable()
}

/// The file at `i` is the first of the list that was not read on both sides.
pub open spec fn first_unreadable(files: Seq<FileContents>, i: int) -> bool {
    &&& 0 <= i < files.len()
    &&& !files[i].readable()
    &&& forall|j: int| 0 <= j < i ==> (#[trigger] files[j]).readable()
}

/// `failure` is what a pass over `files` fails with: the failure of the
/// first file that was not read on both sides.
pub open spec fn is_read_failure(failure: Error, files: Seq<FileContents>) -> bool {
    failure is IoFailure && exists|i: int|
        first_unreadable(files, i) && failure->IoFailure_0@ == files[i].failure()
}

/// The tracked files whose two copies differ, in the order of the list.
pub open spec fn changed(files: Seq<FileContents>) -> Seq<Seq<Seq<u8>>>
    decreases files.len(),
{
    if files.len() == 0 {
        Seq::empty()
    } else {
        let before = changed(files.drop_last());
        if files.last().differs() {
            before.push(files.last().relative@)
        } else {
            before
        }
    }
}

/// Compares the two copies of every tracked file byte by byte and reports
/// the files that differ. One copy that could not be read fails the whole
/// pass with the failure of the first such file.
pub fn detect_changes(files: &Vec<FileContents>) -> (found: Result<Vec<FilePath>, Error>)
    ensures
        match found {
            Ok(records) => all_readable(files@) && paths(records@) == changed(files@),
            Err(e) => is_read_failure(e, files@),
        },
{
    let mut records: Vec<FilePath> = Vec::new();
    let mut i: usize = 0;
    assert(paths(records@) =~= changed(files@.take(0)));
    while i < files.len()
        invariant
            i <= files.len(),
            forall|j: int| 0 <= j < i ==> (#[trigger] files@[j]).readable(),
            paths(records@) == changed(files@.take(i as int)),
        decreases files.len() - i,
    {
        let file = &files[i];
        let ghost before = paths(records@);
        assert(files@.take(i + 1).drop_last() =~= files@.take(i as int));
        assert(files@.take(i + 1).last() == files@[i as int]);
        match &file.store {
            Err(text) => {
                assert(first_unreadable(files@, i as int));
                return Err(Error::IoFailure(text.clone()));
            },
            Ok(store) => match &file.home {
                Err(text) => {
                    assert(first_unreadable(files@, i as int));
                    return Err(Error::IoFailure(text.clone()));
                },
                Ok(home) => {
                    if !bytes_eq(store, home) {
                        records.push(file.relative.clone());
                        assert(paths(records@) =~= before.push(file.relative@));
                    }
                },
            },
        }
        i += 1;
    }
    assert(files@.take(files.len() as int) =~= files@);
    Ok(records)
}

/// A tracked file is reported exactly when some entry of the list holds it
/// with two copies that differ.
pub proof fn lemma_changed_exact(files: Seq<FileContents>, path: Seq<Seq<u8>>)
    ensures
        changed(files).contains(path) <==> exists|i: int|
            0 <= i < files.len() && (#[trigger] files[i]).differs() && files[i].relative@ == path,
    decreases files.len(),
{
    if files.len() > 0 {
        let front = files.drop_last();
        lemma_changed_exact(front, path);
        let before = changed(front);
        if changed(files).contains(path) {
            let k = choose|k: int| 0 <= k < changed(files).len() && changed(files)[k] == path;
            if files.last().differs() && k == before.len() {
                assert(files[files.len() - 1].differs());
            } else {
                assert(before[k] == path);
                assert(before.contains(path));
                let i = choose|i: int|
                    0 <= i < front.len() && (#[trigger] front[i]).differs() && front[i].relative@
                        == path;
                assert(files[i] == front[i]);
            }
        }
        if exists|i: int|
            0 <= i < files.len() && (#[trigger] files[i]).differs() && files[i].relative@ == path {
            let i = choose|i: int|
                0 <= i < files.len() && (#[trigger] files[i]).differs() && files[i].relative@
                    == path;
            if i == files.len() - 1 {
                assert(changed(files).last() == path);
            } else {
                assert(front[i] == files[i]);
                assert(before.contains(path));
                let k = choose|k: int| 0 <= k < before.len() && before[k] == path;
                assert(changed(files)[k] == path);
            }
        }
    }
}

/// A tracked file of which every entry holds two equal copies is not
/// reported: tracking a file that has not changed since it was copied finds
/// nothing to record.
pub proof fn lemma_unchanged_not_reported(files: Seq<FileContents>, path: Seq<Seq<u8>>)
    requires
        forall|i: int|
            0 <= i < files.len() && (#[trigger] files[i]).relative@ == path ==> !files[i].differs(),
    ensures
        !changed(files).contains(path),
{
    lemma_changed_exact(files, path);
}

/// Nothing is reported exactly when no file of the list has two copies that
/// differ: in particular right after every copy in the store was made from
/// its home copy.
pub proof fn lemma_changed_empty(files: Seq<FileContents>)
    ensures
        changed(files).len() == 0 <==> forall|i: int|
            0 <= i < files.len() ==> !(#[trigger] files[i]).differs(),
    decreases files.len(),
{
    if files.len() > 0 {
        let front = files.drop_last();
        lemma_changed_empty(front);
        if changed(files).len() == 0 {
            assert forall|i: int| 0 <= i < files.len() implies !(#[trigger] files[i]).differs() by {
                if i < front.len() {
                    assert(front[i] == files[i]);
                }
            }
        }
        if forall|i: int| 0 <= i < files.len() ==> !(#[trigger] files[i]).differs() {
            assert forall|i: int| 0 <= i < front.len() implies !(#[trigger] front[i]).differs() by {
                assert(front[i] == files[i]);
            }
            assert(!files[files.len() - 1].differs());
        }
    }
}

} // verus!
