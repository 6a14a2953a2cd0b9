//! A merge bot that keeps a repository's master branch always passing its
//! tests: reviewed pull requests are queued, merged one at a time onto a
//! staging branch, tested, and only then moved to master.

pub mod ci;
pub mod config;
pub mod db;
pub mod pipeline;
pub mod ui;
pub mod util;
pub mod vcs;
pub mod view;
