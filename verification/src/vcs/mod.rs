//! Version control: the commits that the pipeline moves around, and the
//! messages and events exchanged with a version-control worker.

pub mod git;
pub mod github;

use crate::pipeline::PipelineId;
use vstd::prelude::*;

verus! {

/// A commit hash (or any other commit identifier the VCS understands).
#[derive(Debug, PartialEq, Eq)]
pub struct Commit(pub String);

impl View for Commit {
    type V = Seq<char>;

    open spec fn view(&self) -> Seq<char> {
        self.0@
    }
}

impl Clone for Commit {
    fn clone(&self) -> (r: Commit)
        ensures
            r == *self,
    {
        Commit(self.0.clone())
    }
}

impl Commit {
    /// Wraps a string as a commit.
    pub fn from(s: String) -> (r: Commit)
        ensures
            r@ == s@,
    {
        Commit(s)
    }

    /// The commit as text.
    pub fn as_str(&self) -> (r: &str)
        ensures
            r@ == self@,
    {
        self.0.as_str()
    }

    /// Unwraps the commit into its text.
    pub fn into_string(self) -> (r: String)
        ensures
            r@ == self@,
    {
        self.0
    }

    /// Whether two commits are the same commit.
    pub fn same(&self, other: &Commit) -> (r: bool)
        ensures
            r == (self@ == other@),
    {
        self.0 == other.0
    }
}

/// A remote reference that the VCS fetches a pull request from.
#[derive(Debug, PartialEq, Eq)]
pub struct Remote(pub String);

impl View for Remote {
    type V = Seq<char>;

    open spec fn view(&self) -> Seq<char> {
        self.0@
    }
}

impl Clone for Remote {
    fn clone(&self) -> (r: Remote)
        ensures
            r == *self,
    {
        Remote(self.0.clone())
    }
}

impl Remote {
    /// Wraps a string as a remote reference.
    pub fn from(s: String) -> (r: Remote)
        ensures
            r@ == s@,
    {
        Remote(s)
    }

    /// Unwraps the remote into its text.
    pub fn into_string(self) -> (r: String)
        ensures
            r@ == self@,
    {
        self.0
    }
}

/// What the pipeline asks of a version-control worker.
#[derive(Debug, PartialEq, Eq)]
pub enum Message {
    MergeToStaging(PipelineId, Commit, String, Remote),
    MoveStagingToMaster(PipelineId, Commit),
}

/// What a version-control worker reports back.
#[derive(Debug, PartialEq, Eq)]
pub enum Event {
    MergedToStaging(PipelineId, Commit, Commit),
    FailedMergeToStaging(PipelineId, Commit),
    MovedToMaster(PipelineId, Commit),
    FailedMoveToMaster(PipelineId, Commit),
}

impl Event {
    /// The pipeline this event belongs to.
    pub fn pipeline_id(&self) -> (r: PipelineId)
        ensures
            r == self.spec_pipeline_id(),
    {
        match self {
            Event::MergedToStaging(i, _, _) => *i,
            Event::FailedMergeToStaging(i, _) => *i,
            Event::MovedToMaster(i, _) => *i,
            Event::FailedMoveToMaster(i, _) => *i,
        }
    }

    pub open spec fn spec_pipeline_id(&self) -> PipelineId {
        match self {
            Event::MergedToStaging(i, _, _) => *i,
            Event::FailedMergeToStaging(i, _) => *i,
            Event::MovedToMaster(i, _) => *i,
            Event::FailedMoveToMaster(i, _) => *i,
        }
    }
}

} // verus!
