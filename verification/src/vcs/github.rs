//! Version control through GitHub's API.

use crate::config::toml::{StaticGithubGitPipelinesConfig, assoc_get};
use crate::pipeline::PipelineId;
use crate::util::str_equal;
use vstd::prelude::*;
use vstd::string::*;

verus! {

/// A GitHub repository and its branches.
#[derive(Debug, PartialEq, Eq, Hash)]
pub struct Repo {
    pub owner: String,
    pub repo: String,
    pub master_branch: String,
    pub staging_branch: String,
    pub push_to_master: bool,
}

pub struct RepoView {
    pub owner: Seq<char>,
    pub repo: Seq<char>,
    pub master_branch: Seq<char>,
    pub staging_branch: Seq<char>,
    pub push_to_master: bool,
}

impl View for Repo {
    type V = RepoView;

    open spec fn view(&self) -> RepoView {
        RepoView {
            owner: self.owner@,
            repo: self.repo@,
            master_branch: self.master_branch@,
            staging_branch: self.staging_branch@,
            push_to_master: self.push_to_master,
        }
    }
}

impl Clone for Repo {
    fn clone(&self) -> (r: Repo)
        ensures
            r == *self,
    {
        Repo {
            owner: self.owner.clone(),
            repo: self.repo.clone(),
            master_branch: self.master_branch.clone(),
            staging_branch: self.staging_branch.clone(),
            push_to_master: self.push_to_master,
        }
    }
}

/// The API path of a branch of a repository.
pub open spec fn branch_path(repo: RepoView, branch: Seq<char>) -> Seq<char> {
    "/repos/"@ + repo.owner + "/"@ + repo.repo + "/git/refs/heads/"@ + branch
}

/// The API path under which a repository's refs are created.
pub open spec fn refs_path(repo: RepoView) -> Seq<char> {
    "/repos/"@ + repo.owner + "/"@ + repo.repo + "/git/refs"@
}

/// The API path that merges into a branch of a repository.
pub open spec fn merges_path(repo: RepoView) -> Seq<char> {
    "/repos/"@ + repo.owner + "/"@ + repo.repo + "/merges"@
}

/// The API path of the statuses of a commit.
pub open spec fn statuses_path(repo: RepoView, commit: Seq<char>) -> Seq<char> {
    "/repos/"@ + repo.owner + "/"@ + repo.repo + "/statuses/"@ + commit
}

fn repo_prefix(repo: &Repo) -> (r: String)
    ensures
        r@ == "/repos/"@ + repo.owner@ + "/"@ + repo.repo@,
{
    let mut r = String::from_str("/repos/");
    r.append(repo.owner.as_str());
    r.append("/");
    r.append(repo.repo.as_str());
    r
}

/// The API path of a branch; see [`branch_path`].
pub fn branch_path_of(repo: &Repo, branch: &str) -> (r: String)
    ensures
        r@ == branch_path(repo@, branch@),
{
    let mut r = repo_prefix(repo);
    r.append("/git/refs/heads/");
    r.append(branch);
    r
}

/// See [`refs_path`].
pub fn refs_path_of(repo: &Repo) -> (r: String)
    ensures
        r@ == refs_path(repo@),
{
    let mut r = repo_prefix(repo);
    r.append("/git/refs");
    r
}

/// See [`merges_path`].
pub fn merges_path_of(repo: &Repo) -> (r: String)
    ensures
        r@ == merges_path(repo@),
{
    let mut r = repo_prefix(repo);
    r.append("/merges");
    r
}

/// See [`statuses_path`].
pub fn statuses_path_of(repo: &Repo, commit: &str) -> (r: String)
    ensures
        r@ == statuses_path(repo@, commit@),
{
    let mut r = repo_prefix(repo);
    r.append("/statuses/");
    r.append(commit);
    r
}

/// How to bring the staging branch to master before a merge.
#[derive(Clone, Copy, Debug, PartialEq, Eq, Structural)]
pub enum StagingAction {
    /// The staging branch is at master already.
    UpToDate,
    /// Force the staging branch to master.
    Reset,
    /// Create the staging branch at master.
    Create,
}

/// The staging branch is created when it could not be read, reset when it
/// is elsewhere than master, and left alone when it is at master.
pub fn staging_action(staging_sha: Option<&str>, master_sha: &str) -> (r: StagingAction)
    ensures
        match staging_sha {
            None => r == StagingAction::Create,
            Some(s) => if s@ == master_sha@ {
                r == StagingAction::UpToDate
            } else {
                r == StagingAction::Reset
            },
        },
{
    match staging_sha {
        None => StagingAction::Create,
        Some(s) => if str_equal(s, master_sha) {
            StagingAction::UpToDate
        } else {
            StagingAction::Reset
        },
    }
}

/// The ref that names a branch.
pub fn branch_ref(branch: &str) -> (r: String)
    ensures
        r@ == "refs/heads/"@ + branch@,
{
    let mut r = String::from_str("refs/heads/");
    r.append(branch);
    r
}

/// The GitHub version-control worker: each pipeline's repository.
pub struct Worker {
    pub pipelines: StaticGithubGitPipelinesConfig,
}

impl Worker {
    /// The repository of a pipeline; `None` for an unknown pipeline, which
    /// makes the merge or the move fail.
    pub fn repo_for(&self, pipeline_id: PipelineId) -> (r: Option<Repo>)
        ensures
            match r {
                Some(repo) => assoc_get(self.pipelines@, pipeline_id) == Some(repo@),
                None => assoc_get(self.pipelines@, pipeline_id) is None,
            },
    {
        self.pipelines.repo_by_pipeline(pipeline_id)
    }
}

} // verus!
