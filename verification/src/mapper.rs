//! The mapping between a file below the home directory and its mirror
//! below the root of the store.

use vstd::prelude::*;
use crate::error::Error;
use crate::path::{is_below, is_canonical, is_normal, is_relative, FilePath};

verus! {

/// The two roots between which paths are mapped. The structure of a path
/// below one root is kept below the other.
#[derive(Debug, PartialEq, Eq)]
pub struct PathMapper {
    /// The home directory of the user.
    pub home_root: FilePath,
    /// The directory that holds the store.
    pub store_root: FilePath,
}

impl PathMapper {
    /// A path that may be tracked: canonical, and strictly below a home root
    /// that has a component at all.
    pub open spec fn in_scope(&self, path: Seq<Seq<u8>>) -> bool {
        &&& self.home_root@.len() > 0
        &&& is_canonical(path)
        &&& is_below(self.home_root@, path)
    }

    /// The tracked file that a path in scope stands for: the path as seen from
    /// the home root.
    pub open spec fn relative_of(&self, path: Seq<Seq<u8>>) -> Seq<Seq<u8>> {
        path.skip(self.home_root@.len() as int)
    }

    /// Where the store keeps a tracked file.
    pub open spec fn store_location(&self, relative: Seq<Seq<u8>>) -> Seq<Seq<u8>> {
        self.store_root@ + relative
    }

    /// Where the home directory keeps a tracked file.
    pub open spec fn home_location(&self, relative: Seq<Seq<u8>>) -> Seq<Seq<u8>> {
        self.home_root@ + relative
    }

    /// The store path of a home path; none for a path out of scope.
    pub open spec fn to_store(&self, path: Seq<Seq<u8>>) -> Option<Seq<Seq<u8>>> {
        if self.in_scope(path) {
            Some(self.store_location(self.relative_of(path)))
        } else {
            None
        }
    }

    /// The home path of a store path; none for a path that is not strictly
    /// below the store root.
    pub open spec fn to_home(&self, path: Seq<Seq<u8>>) -> Option<Seq<Seq<u8>>> {
        if is_below(self.store_root@, path) {
            Some(self.home_location(path.skip(self.store_root@.len() as int)))
        } else {
            None
        }
    }

    /// A mapper between the given roots.
    pub fn new(home_root: FilePath, store_root: FilePath) -> (mapper: PathMapper)
        ensures
            mapper.home_root == home_root,
            mapper.store_root == store_root,
    {
        PathMapper { home_root, store_root }
    }

    /// Accepts the paths that may be tracked and refuses every other.
    pub fn validate_filepath(&self, path: &FilePath) -> (checked: Result<(), Error>)
        ensures
            checked is Ok <==> self.in_scope(path@),
            checked matches Err(e) ==> e == Error::OutOfScopePath,
    {
        if self.home_root.parts.len() > 0 && path.is_canonical() && path.is_below(
            &self.home_root,
        ) {
            Ok(())
        } else {
            Err(Error::OutOfScopePath)
        }
    }

    /// The tracked file that a home path stands for.
    pub fn tracked_file(&self, path: &FilePath) -> (relative: Result<FilePath, Error>)
        ensures
            match relative {
                Ok(r) => self.in_scope(path@) && r@ == self.relative_of(path@),
                Err(e) => !self.in_scope(path@) && e == Error::OutOfScopePath,
            },
    {
        match self.validate_filepath(path) {
            Ok(()) => Ok(path.skip(self.home_root.parts.len())),
            Err(e) => Err(e),
        }
    }

    /// Maps a home path to the path of its mirror in the store.
    pub fn to_store_path(&self, path: &FilePath) -> (mapped: Result<FilePath, Error>)
        ensures
            match mapped {
                Ok(p) => self.to_store(path@) == Some(p@),
                Err(e) => self.to_store(path@) is None && e == Error::OutOfScopePath,
            },
    {
        match self.tracked_file(path) {
            Ok(relative) => Ok(self.store_root.join(&relative)),
            Err(e) => Err(e),
        }
    }

    /// Maps a store path to the home path that it mirrors.
    pub fn to_home_path(&self, path: &FilePath) -> (mapped: Result<FilePath, Error>)
        ensures
            match mapped {
                Ok(p) => self.to_home(path@) == Some(p@),
                Err(e) => self.to_home(path@) is None && e == Error::OutOfScopePath,
            },
    {
        if path.is_below(&self.store_root) {
            let relative = path.skip(self.store_root.parts.len());
            Ok(self.home_root.join(&relative))
        } else {
            Err(Error::OutOfScopePath)
        }
    }

    /// The store path of a tracked file.
    pub fn store_path_of(&self, relative: &FilePath) -> (location: FilePath)
        ensures
            location@ == self.store_location(relative@),
    {
        self.store_root.join(relative)
    }

    /// The home path of a tracked file.
    pub fn home_path_of(&self, relative: &FilePath) -> (location: FilePath)
        ensures
            location@ == self.home_location(relative@),
    {
        self.home_root.join(relative)
    }
}

/// Mapping a path in scope to the store and back gives the path itself.
pub proof fn lemma_home_round_trip(mapper: PathMapper, path: Seq<Seq<u8>>)
    requires
        mapper.in_scope(path),
    ensures
        mapper.to_store(path) is Some,
        mapper.to_home(mapper.to_store(path)->0) == Some(path),
{
    let relative = mapper.relative_of(path);
    let stored = mapper.store_location(relative);
    assert(mapper.store_root@ =~= stored.subrange(0, mapper.store_root@.len() as int));
    assert(stored.skip(mapper.store_root@.len() as int) =~= relative);
    assert(mapper.home_root@ + relative =~= path);
}

/// Mapping a store path to the home directory and back gives the path itself,
/// wherever the home path is in scope.
pub proof fn lemma_store_round_trip(mapper: PathMapper, path: Seq<Seq<u8>>)
    requires
        mapper.to_home(path) is Some,
        mapper.in_scope(mapper.to_home(path)->0),
    ensures
        mapper.to_store(mapper.to_home(path)->0) == Some(path),
{
    let relative = path.skip(mapper.store_root@.len() as int);
    let home = mapper.home_location(relative);
    assert(mapper.home_root@ =~= home.subrange(0, mapper.home_root@.len() as int));
    assert(home.skip(mapper.home_root@.len() as int) =~= relative);
    assert(mapper.store_root@ + relative =~= path);
}

/// The mapping keeps the structure of a path: what a path in scope is below
/// the home root, its mirror is below the store root.
pub proof fn lemma_structure_kept(mapper: PathMapper, path: Seq<Seq<u8>>)
    requires
        mapper.in_scope(path),
    ensures
        is_below(mapper.store_root@, mapper.to_store(path)->0),
        mapper.to_store(path)->0.skip(mapper.store_root@.len() as int) == mapper.relative_of(path),
{
    let relative = mapper.relative_of(path);
    let stored = mapper.store_location(relative);
    assert(mapper.store_root@ =~= stored.subrange(0, mapper.store_root@.len() as int));
    assert(stored.skip(mapper.store_root@.len() as int) =~= relative);
}

/// Below a store root that is canonical, the mirror of a path in scope is
/// canonical too.
pub proof fn lemma_mirror_is_canonical(mapper: PathMapper, path: Seq<Seq<u8>>)
    requires
        mapper.in_scope(path),
        is_canonical(mapper.store_root@),
    ensures
        is_canonical(mapper.to_store(path)->0),
{
    let stored = mapper.to_store(path)->0;
    let relative = mapper.relative_of(path);
    lemma_tracked_is_relative(mapper, path);
    assert(stored[0] == mapper.store_root@[0]);
    assert forall|i: int| 1 <= i < stored.len() implies is_normal(#[trigger] stored[i]) by {
        if i < mapper.store_root@.len() {
            assert(stored[i] == mapper.store_root@[i]);
        } else {
            assert(stored[i] == relative[i - mapper.store_root@.len()]);
        }
    }
}

/// Two paths in scope that share their mirror in the store are the same path.
pub proof fn lemma_to_store_injective(mapper: PathMapper, a: Seq<Seq<u8>>, b: Seq<Seq<u8>>)
    requires
        mapper.in_scope(a),
        mapper.in_scope(b),
        mapper.to_store(a) == mapper.to_store(b),
    ensures
        a == b,
{
    lemma_home_round_trip(mapper, a);
    lemma_home_round_trip(mapper, b);
}

/// A path in scope stands for a tracked file, and the home location of that
/// tracked file is the path.
pub proof fn lemma_tracked_is_relative(mapper: PathMapper, path: Seq<Seq<u8>>)
    requires
        mapper.in_scope(path),
    ensures
        is_relative(mapper.relative_of(path)),
        mapper.home_location(mapper.relative_of(path)) == path,
{
    let relative = mapper.relative_of(path);
    assert forall|i: int| 0 <= i < relative.len() implies is_normal(#[trigger] relative[i]) by {
        assert(relative[i] == path[i + mapper.home_root@.len()]);
    }
    assert(mapper.home_root@ + relative =~= path);
}

} // verus!
