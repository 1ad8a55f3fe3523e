//! The core of a launcher for executable files: find the executables in a
//! directory, wait for a folder picker without blocking, and open each
//! chosen program in a terminal that stays.
//!
//! The crate touches neither the file system nor the process table. Its
//! callers read directories, start threads and spawn processes; the crate
//! decides what is to be read, started and spawned, and what the answers
//! mean.

pub mod arg_parser;
pub mod config;
pub mod grid;
pub mod launch;
pub mod locations;
pub mod paths;
pub mod picker;
pub mod preferences;
pub mod quote;
pub mod scan;
pub mod session;
pub mod settings;
pub mod task;
