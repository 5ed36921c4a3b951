//! The engine of a tool that keeps chosen files of a home directory in a
//! versioned store, finds the files that drifted from their stored copy, and
//! synchronises the store with a remote.
//!
//! The library decides and its caller acts. It never touches the file
//! system, the network or the version-control engine itself. An operation
//! that needs them is an exchange: a step names what is to be done, the
//! caller does it and hands back what came of it, and the library answers
//! with the next step until the exchange is finished. The one thing that the
//! library asks of the system itself is where the directories of the user
//! lie.
//!
//! - [`path`] holds paths as sequences of components and reads and writes
//!   the names under which the index keeps its files.
//! - [`mapper`] maps a file below the home directory to its mirror below the
//!   root of the store, and back.
//! - [`change`] finds the tracked files whose two copies differ.
//! - [`remote`] chooses the remote and judges what a fetch showed.
//! - [`store`] plans the tracking of a file and lists what is tracked.
//! - [`setup`], [`track`] and [`sync`] are the exchanges that open the store,
//!   track a file and synchronise with the remote.
//! - [`orchestrator`] offers the operations of the command line.
//! - [`locations`] finds the two roots for the current user.
//! - [`error`] names the failures.

pub mod change;
pub mod error;
pub mod locations;
pub mod mapper;
pub mod orchestrator;
pub mod path;
pub mod remote;
pub mod setup;
pub mod store;
pub mod sync;
pub mod track;

pub use error::Error;
pub use mapper::PathMapper;
pub use path::FilePath;
pub use store::DotfileStorage;
