//! Decisions behind a formatter front end: where the configuration lies, how
//! its entries become command-line arguments, which command is run in each
//! mode, and how the configuration file is hidden while the command runs.
//!
//! Nothing here touches the disk or starts a process. Callers hand in what
//! they observed (a snapshot of the relevant files, the outcome of a rename,
//! the status of a child) and carry out the actions that come back.
//!
//! - `path_ext`, `probe`, `snapshot`: paths, the search through ancestor
//!   directories, and the observed state of the disk that it runs on.
//! - `document`, `cargo_toml`, `rustfmt_toml`: TOML documents, the edition of
//!   the manifest, the entries of the configuration and its hiding.
//! - `invocation`, `run`: the command of a mode, and the steps of running it
//!   with the configuration file out of the way.
//! - `command`, `rustfmt_stdio`, `rustfmt`, `cargo_fmt`: the command line and
//!   the three modes.

pub mod cargo_fmt;
pub mod cargo_toml;
pub mod command;
pub mod document;
pub mod error;
pub mod invocation;
pub mod laws;
pub mod outside;
pub mod path_ext;
pub mod probe;
pub mod run;
pub mod rustfmt;
pub mod rustfmt_stdio;
pub mod rustfmt_toml;
pub mod snapshot;
pub mod text;
pub mod vec_ext;
