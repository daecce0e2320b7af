//! Decision logic of a command-line tool that runs a command on a remote host
//! against the branch checked out in the local working copy.
//!
//! Everything here works on plain values. The surrounding program performs the
//! actual reads, remote calls and prints, and feeds what it observed back in.

pub mod text;
pub mod error;
pub mod args;
pub mod repo;
pub mod session;
pub mod workspace;
pub mod executor;
pub mod pipeline;
pub mod laws;
