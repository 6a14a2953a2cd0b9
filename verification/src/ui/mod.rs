//! The front-end of the build system: the connector to tools like GitHub
//! pull requests, and the command language of pull request comments.

pub mod comments;
pub mod github;

use crate::pipeline::PipelineId;
use crate::vcs::{Commit, Remote};
use vstd::prelude::*;

verus! {

/// A pull request, as the user interface names it.
#[derive(Debug, PartialEq, Eq)]
pub struct Pr(pub String);

impl View for Pr {
    type V = Seq<char>;

    open spec fn view(&self) -> Seq<char> {
        self.0@
    }
}

impl Clone for Pr {
    fn clone(&self) -> (r: Pr)
        ensures
            r == *self,
    {
        Pr(self.0.clone())
    }
}

/// The remote reference under which a pull request's head can be fetched.
pub open spec fn spec_remote(pr: Seq<char>) -> Seq<char> {
    "pull/"@ + pr + "/head"@
}

impl Pr {
    /// Wraps a string as a pull request name.
    pub fn from(s: String) -> (r: Pr)
        ensures
            r@ == s@,
    {
        Pr(s)
    }

    /// Unwraps the pull request name.
    pub fn into_string(self) -> (r: String)
        ensures
            r@ == self@,
    {
        self.0
    }

    /// The remote reference `pull/<pr>/head`.
    pub fn remote(&self) -> (r: Remote)
        ensures
            r@ == spec_remote(self@),
    {
        let mut s = String::from_str("pull/");
        s.append(self.0.as_str());
        s.append("/head");
        proof {
            reveal_strlit("pull/");
            reveal_strlit("/head");
        }
        Remote::from(s)
    }

    /// The pull request name as text.
    pub fn as_str(&self) -> (r: &str)
        ensures
            r@ == self@,
    {
        self.0.as_str()
    }

    /// Whether two pull requests are the same.
    pub fn same(&self, other: &Pr) -> (r: bool)
        ensures
            r == (self@ == other@),
    {
        self.0 == other.0
    }
}

/// The result that the pipeline reports to the user about a pull request.
#[derive(Debug, PartialEq, Eq)]
pub enum Status {
    Approved(Commit),
    Invalidated,
    NoCommit,
    Unmergeable(Commit),
    StartingBuild(Commit, Commit),
    Testing(Commit, Commit, Option<String>),
    Success(Commit, Commit, Option<String>),
    Failure(Commit, Commit, Option<String>),
    Unmoveable(Commit, Commit),
    Completed(Commit, Commit),
}

pub fn clone_url(u: &Option<String>) -> (r: Option<String>)
    ensures
        r == *u,
{
    match u {
        Some(s) => Some(s.clone()),
        None => None,
    }
}

impl Clone for Status {
    fn clone(&self) -> (r: Status)
        ensures
            r == *self,
    {
        match self {
            Status::Approved(c) => Status::Approved(c.clone()),
            Status::Invalidated => Status::Invalidated,
            Status::NoCommit => Status::NoCommit,
            Status::Unmergeable(c) => Status::Unmergeable(c.clone()),
            Status::StartingBuild(a, b) => Status::StartingBuild(a.clone(), b.clone()),
            Status::Testing(a, b, u) => Status::Testing(a.clone(), b.clone(), clone_url(u)),
            Status::Success(a, b, u) => Status::Success(a.clone(), b.clone(), clone_url(u)),
            Status::Failure(a, b, u) => Status::Failure(a.clone(), b.clone(), clone_url(u)),
            Status::Unmoveable(a, b) => Status::Unmoveable(a.clone(), b.clone()),
            Status::Completed(a, b) => Status::Completed(a.clone(), b.clone()),
        }
    }
}

/// The mathematical form of a [`Status`].
pub enum StatusView {
    Approved(Seq<char>),
    Invalidated,
    NoCommit,
    Unmergeable(Seq<char>),
    StartingBuild(Seq<char>, Seq<char>),
    Testing(Seq<char>, Seq<char>, Option<Seq<char>>),
    Success(Seq<char>, Seq<char>, Option<Seq<char>>),
    Failure(Seq<char>, Seq<char>, Option<Seq<char>>),
    Unmoveable(Seq<char>, Seq<char>),
    Completed(Seq<char>, Seq<char>),
}

pub open spec fn url_view(u: Option<String>) -> Option<Seq<char>> {
    match u {
        Some(s) => Some(s@),
        None => None,
    }
}

impl View for Status {
    type V = StatusView;

    open spec fn view(&self) -> StatusView {
        match self {
            Status::Approved(c) => StatusView::Approved(c@),
            Status::Invalidated => StatusView::Invalidated,
            Status::NoCommit => StatusView::NoCommit,
            Status::Unmergeable(c) => StatusView::Unmergeable(c@),
            Status::StartingBuild(a, b) => StatusView::StartingBuild(a@, b@),
            Status::Testing(a, b, u) => StatusView::Testing(a@, b@, url_view(*u)),
            Status::Success(a, b, u) => StatusView::Success(a@, b@, url_view(*u)),
            Status::Failure(a, b, u) => StatusView::Failure(a@, b@, url_view(*u)),
            Status::Unmoveable(a, b) => StatusView::Unmoveable(a@, b@),
            Status::Completed(a, b) => StatusView::Completed(a@, b@),
        }
    }
}

/// What the pipeline asks of a user-interface worker.
#[derive(Debug, PartialEq, Eq)]
pub enum Message {
    SendResult(PipelineId, Pr, Status),
}

/// What a user-interface worker reports.
#[derive(Debug, PartialEq, Eq)]
pub enum Event {
    Approved(PipelineId, Pr, Option<Commit>, String),
    Canceled(PipelineId, Pr),
    Opened(PipelineId, Pr, Commit, String, String),
    Changed(PipelineId, Pr, Commit, String, String),
    Closed(PipelineId, Pr),
}

impl Event {
    /// The pipeline this event belongs to.
    pub fn pipeline_id(&self) -> (r: PipelineId)
        ensures
            r == self.spec_pipeline_id(),
    {
        match self {
            Event::Approved(i, _, _, _) => *i,
            Event::Canceled(i, _) => *i,
            Event::Opened(i, _, _, _, _) => *i,
            Event::Changed(i, _, _, _, _) => *i,
            Event::Closed(i, _) => *i,
        }
    }

    pub open spec fn spec_pipeline_id(&self) -> PipelineId {
        match self {
            Event::Approved(i, _, _, _) => *i,
            Event::Canceled(i, _) => *i,
            Event::Opened(i, _, _, _, _) => *i,
            Event::Changed(i, _, _, _, _) => *i,
            Event::Closed(i, _) => *i,
        }
    }
}

} // verus!
