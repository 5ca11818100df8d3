//! The rules of a cache tool for CI jobs. The tool gathers the files and
//! directories that the environment names, keeps them as one archive on a
//! WebDAV server, and later puts them back where they came from.
//!
//! This library holds every decision of the tool and none of its input and
//! output. What is read from disk, from the environment or from the server
//! is handed in as plain values; what has to be done next is handed back.
//! Where a phase alternates between work and decisions, a function takes the
//! event that has just happened and returns the action that follows: the
//! caller starts with the phase's first event, does what is returned, and
//! comes back with what happened, until the answer ends the phase.

pub mod archive;
pub mod classify;
pub mod command;
pub mod download;
pub mod environment;
pub mod model;
pub mod path;
pub mod remote;
pub mod replay;
pub mod snapshot;
pub mod staging;
pub mod text;
