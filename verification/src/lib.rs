//! Determines which files a version-control history query should cover and
//! how its result is reported: the latest commit affecting a target file,
//! widened by a declarative dependency file, or that commit's date.
//!
//! Running the version-control tool and reading files is left to the binary
//! around this library; every decision in between is made here.

pub mod args;
pub mod deps;
pub mod files;
pub mod git;
pub mod output;
