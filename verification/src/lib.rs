//! A verified front end for the `duplicity` backup tool.
//!
//! Named backup repositories are described declaratively; this crate
//! validates the descriptions, resolves the parent/child structure among
//! them, and derives the ordered subprocess invocations that carry each
//! operation out.  Spawning those subprocesses, parsing the command line
//! and reading the configuration file are left to an unverified shell
//! around this library.

pub mod config;
pub mod error;
pub mod flags;
pub mod orchestrator;
pub mod repository;
pub mod text;
