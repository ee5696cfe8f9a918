//! Finds version-controlled repositories under base directories and
//! reports, for each, whether its working tree has changes and how its
//! current branch relates to its remote tracking branch (in sync, ahead,
//! behind, or diverged).
//!
//! The library holds the verified core: bounded-depth discovery of
//! repository roots, the working-tree status reader, the merge-base
//! ancestry classifier, the classification of fetch failures, the
//! resolution of configuration and command-line settings, and the text
//! and JSON renderings of the reports. Repositories themselves are read
//! through a small trusted boundary to the `git2` crate; walking the file
//! system, running `git fetch` under a time limit, and parsing the
//! command line and the configuration file are left to the surrounding
//! program.

pub mod ancestry;
pub mod cli;
pub mod config;
pub mod discovery;
pub mod error;
pub mod exclude;
pub mod fetch;
pub mod formatter;
pub mod gitio;
pub mod jsonfmt;
pub mod repo;
pub mod status;
pub mod strutil;

pub use ancestry::Ancestry;
pub use error::PendectorError;
pub use error::PendectorResult;
pub use repo::Repository;
