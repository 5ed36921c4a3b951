//! Where the home directory and the store lie for the current user.

use vstd::prelude::*;
use vstd::string::*;
use crate::mapper::PathMapper;
use crate::path::FilePath;

verus! {

/// A directory that the system could not name.
#[derive(Debug, Clone, Copy, PartialEq, Eq)]
pub enum Unresolved {
    /// The directory in which programs keep the data of the user.
    DataDirectory,
    /// The home directory of the user.
    HomeDirectory,
}

/// The name of the directory that the tool keeps below the data directory.
pub open spec fn tool_directory() -> Seq<u8> {
    "cfgtool".spec_bytes()
}

/// The name of the directory of the store below that of the tool.
pub open spec fn store_directory() -> Seq<u8> {
    "repo".spec_bytes()
}

/// The root of the store for a given data directory.
pub open spec fn store_root_in(data_dir: Seq<Seq<u8>>) -> Seq<Seq<u8>> {
    data_dir.push(tool_directory()).push(store_directory())
}

/// The roots that a data directory and a home directory give: the data
/// directory is asked for first.
pub open spec fn resolved(
    home: Option<FilePath>,
    data: Option<FilePath>,
) -> Result<(Seq<Seq<u8>>, Seq<Seq<u8>>), Unresolved> {
    match data {
        None => Err(Unresolved::DataDirectory),
        Some(data_dir) => match home {
            None => Err(Unresolved::HomeDirectory),
            Some(home_dir) => Ok((home_dir@, store_root_in(data_dir@))),
        },
    }
}

/// The root of the store below a data directory.
pub fn store_root(data_dir: &FilePath) -> (root: FilePath)
    ensures
        root@ == store_root_in(data_dir@),
{
    let mut below: Vec<Vec<u8>> = Vec::new();
    below.push("cfgtool".as_bytes_vec());
    below.push("repo".as_bytes_vec());
    let below = FilePath::new(below);
    let root = data_dir.join(&below);
    assert(root@ =~= store_root_in(data_dir@));
    root
}

/// The two roots, from what the system names as the home directory and as
/// the data directory of the user.
pub fn roots_from(
    home: Option<FilePath>,
    data: Option<FilePath>,
) -> (roots: Result<PathMapper, Unresolved>)
    ensures
        match roots {
            Ok(mapper) => resolved(home, data) == Ok::<(Seq<Seq<u8>>, Seq<Seq<u8>>), Unresolved>(
                (mapper.home_root@, mapper.store_root@),
            ),
            Err(missing) => resolved(home, data) == Err::<(Seq<Seq<u8>>, Seq<Seq<u8>>), Unresolved>(
                missing,
            ),
        },
{
    match data {
        None => Err(Unresolved::DataDirectory),
        Some(data_dir) => match home {
            None => Err(Unresolved::HomeDirectory),
            Some(home_dir) => Ok(PathMapper::new(home_dir, store_root(&data_dir))),
        },
    }
}

/// The two roots for the current user. Which directories the system names
/// is not known beforehand; whatever they are, the store lies in the
/// directory of the tool below the data directory.
pub fn default_roots() -> (roots: Result<PathMapper, Unresolved>)
    ensures
        roots matches Ok(mapper) ==> exists|data_dir: Seq<Seq<u8>>|
            mapper.store_root@ == store_root_in(data_dir),
{
    let data = data_dir();
    let home = home_dir();
    roots_from(home, data)
}

/// Calls `dirs::home_dir`, which names the home directory of the current
/// user or nothing, and gives the path as its components. Nothing is claimed
/// of the answer: it depends on the environment of the process.
#[verifier::external_body]
fn home_dir() -> Option<FilePath> {
    dirs::home_dir().map(|path| {
        FilePath { parts: path.iter().map(|part| part.as_encoded_bytes().to_vec()).collect() }
    })
}

/// Calls `dirs::data_dir`, which names the data directory of the current
/// user or nothing, and gives the path as its components. Nothing is claimed
/// of the answer: it depends on the environment of the process.
#[verifier::external_body]
fn data_dir() -> Option<FilePath> {
    dirs::data_dir().map(|path| {
        FilePath { parts: path.iter().map(|part| part.as_encoded_bytes().to_vec()).collect() }
    })
}

} // verus!
