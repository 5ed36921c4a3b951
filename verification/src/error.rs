//! The failures that the engine reports to its caller.

use vstd::prelude::*;
use vstd::string::*;

verus! {

/// Why an operation on the store did not succeed.
#[derive(Debug, PartialEq, Eq)]
pub enum Error {
    /// The file to track does not exist or is not a regular file.
    NotAFile,
    /// The path lies outside the root it has to be mapped from.
    OutOfScopePath,
    /// No remote is configured.
    NoRemote,
    /// The store has no local branch `main`.
    NoMainBranch,
    /// The remote history cannot be reached by fast-forward.
    NonFastForward,
    /// The version-control engine failed; the text is the engine's own.
    EngineFailure(String),
    /// Reading, writing or copying a file failed; the text is the system's own.
    IoFailure(String),
}

impl Error {
    /// The text shown to the user for this failure.
    pub open spec fn text(self) -> Seq<char> {
        match self {
            Error::NotAFile => "File does not exist"@,
            Error::OutOfScopePath => "Config files outside the homedir aren't supported yet."@,
            Error::NoRemote => "No remote found."@,
            Error::NoMainBranch => "No main branch found."@,
            Error::NonFastForward => "Only fast-forward supported."@,
            Error::EngineFailure(message) => message@,
            Error::IoFailure(message) => message@,
        }
    }

    /// Renders the failure for the user.
    pub fn message(&self) -> (rendered: String)
        ensures
            rendered@ == self.text(),
    {
        match self {
            Error::NotAFile => String::from_str("File does not exist"),
            Error::OutOfScopePath => String::from_str(
                "Config files outside the homedir aren't supported yet.",
            ),
            Error::NoRemote => String::from_str("No remote found."),
            Error::NoMainBranch => String::from_str("No main branch found."),
            Error::NonFastForward => String::from_str("Only fast-forward supported."),
            Error::EngineFailure(message) => message.clone(),
            Error::IoFailure(message) => message.clone(),
        }
    }
}

} // verus!
