//! Continuous integration: the identifiers of CI jobs and the messages and
//! events exchanged with a CI worker.

pub mod buildbot;
pub mod github_status;
pub mod jenkins;

use crate::vcs::Commit;
use vstd::prelude::*;

verus! {

/// Identifier of one CI job that a pipeline waits on.
#[derive(Clone, Copy, Debug, PartialEq, Eq, Hash, Structural)]
pub struct CiId(pub i32);

/// What the pipeline asks of a CI worker.
#[derive(Debug, PartialEq, Eq)]
pub enum Message {
    StartBuild(CiId, Commit),
}

/// What a CI worker reports; the last field is the build's URL, if known.
#[derive(Debug, PartialEq, Eq)]
pub enum Event {
    BuildStarted(CiId, Commit, Option<String>),
    BuildSucceeded(CiId, Commit, Option<String>),
    BuildFailed(CiId, Commit, Option<String>),
}

impl Event {
    /// The CI job this event belongs to.
    pub fn ci_id(&self) -> (r: CiId)
        ensures
            r == self.spec_ci_id(),
    {
        match self {
            Event::BuildStarted(i, _, _) => *i,
            Event::BuildSucceeded(i, _, _) => *i,
            Event::BuildFailed(i, _, _) => *i,
        }
    }

    pub open spec fn spec_ci_id(&self) -> CiId {
        match self {
            Event::BuildStarted(i, _, _) => *i,
            Event::BuildSucceeded(i, _, _) => *i,
            Event::BuildFailed(i, _, _) => *i,
        }
    }
}

} // verus!
