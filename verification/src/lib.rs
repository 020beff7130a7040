//! Decision logic of `buas` ("burst, use, auto sync"): a command is run in a
//! fresh DRAM workspace, and once it succeeds the workspace's top-level
//! entries are published into the caller's directory as symlinks.
//!
//! Everything that touches the file system or the process table is driven
//! from outside through the state machine in [`session`]; this crate decides.

pub mod path;
pub mod generation;
pub mod error;
pub mod session;
pub mod laws;
