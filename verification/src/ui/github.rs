//! The GitHub user interface: pull requests and their comments.

use crate::pipeline::PipelineId;
use crate::ui;
use crate::util::github_headers::WebhookStatus;
use crate::util::{decimal, spec_contains, str_contains, str_equal, u32_to_string};
use crate::vcs::Commit;
use vstd::prelude::*;
use vstd::string::*;

verus! {

/// A GitHub repository.
#[derive(Debug, PartialEq, Eq, Hash)]
pub struct Repo {
    pub owner: String,
    pub repo: String,
}

pub struct RepoView {
    pub owner: Seq<char>,
    pub repo: Seq<char>,
}

impl View for Repo {
    type V = RepoView;

    open spec fn view(&self) -> RepoView {
        RepoView { owner: self.owner@, repo: self.repo@ }
    }
}

impl Clone for Repo {
    fn clone(&self) -> (r: Repo)
        ensures
            r == *self,
    {
        Repo { owner: self.owner.clone(), repo: self.repo.clone() }
    }
}

/// The pipelines of a repository: the one that lands pull requests, and
/// the one that only tries them, if configured.
#[derive(Clone, Copy, Debug, PartialEq, Eq, Structural)]
pub struct RepoPipelines {
    pub pipeline_id: PipelineId,
    pub try_pipeline_id: Option<PipelineId>,
}

/// Whether a pipeline lands pull requests or only tries them.
#[derive(Clone, Copy, Debug, PartialEq, Eq, Structural)]
pub enum PipelineType {
    Stage,
    Try,
}

/// A GitHub pull request, by its number.
#[derive(Clone, Copy, Debug, PartialEq, Eq, Structural)]
pub struct Pr(pub u32);

impl Pr {
    /// The remote reference `pull/<number>/head`.
    pub fn remote(&self) -> (r: String)
        ensures
            r@ == "pull/"@ + decimal(self.0 as nat) + "/head"@,
    {
        let mut s = String::from_str("pull/");
        let n = u32_to_string(self.0);
        s.append(n.as_str());
        s.append("/head");
        s
    }

    /// The pull request as the pipelines name it: its number in decimal.
    pub fn to_ui(&self) -> (r: ui::Pr)
        ensures
            r@ == decimal(self.0 as nat),
    {
        ui::Pr::from(u32_to_string(self.0))
    }
}

/// A comment on an issue or a pull request, as GitHub's `issue_comment`
/// webhook describes it.
pub struct CommentDesc {
    pub repo_owner: String,
    pub repo_name: String,
    pub issue_number: u32,
    pub issue_title: String,
    pub issue_body: String,
    pub issue_state: String,
    pub issue_user: String,
    pub is_pull_request: bool,
    pub comment_user: String,
    pub comment_body: String,
}

/// What a webhook request carries: the kind of event from the
/// `X-Github-Event` header and what its JSON body gave (`None` when the
/// body did not have the expected shape).
pub enum WebhookPayload {
    IssueComment(Option<CommentDesc>),
    PullRequest(Option<u32>),
    Ping(Option<String>),
    Other,
}

/// What to do after answering a webhook request.
pub enum WebhookFollowUp {
    Nothing,
    /// Fetch the head commit of this pull request in this repository, and
    /// report the pull request approved with this message.
    Approve(PipelineId, Repo, Pr, String),
    /// Report the pull request's approval canceled.
    Cancel(PipelineId, Pr),
}

/// The mathematical form of a [`WebhookFollowUp`].
pub enum FollowUpView {
    Nothing,
    Approve(PipelineId, RepoView, u32, Seq<char>),
    Cancel(PipelineId, u32),
}

impl View for WebhookFollowUp {
    type V = FollowUpView;

    open spec fn view(&self) -> FollowUpView {
        match self {
            WebhookFollowUp::Nothing => FollowUpView::Nothing,
            WebhookFollowUp::Approve(pid, repo, pr, msg) => FollowUpView::Approve(*pid, repo@, pr.0, msg@),
            WebhookFollowUp::Cancel(pid, pr) => FollowUpView::Cancel(*pid, pr.0),
        }
    }
}

/// The message of a merge commit: who opened the pull request and who
/// approved it, its title and its description.
pub open spec fn approval_message(pr: u32, author: Seq<char>, approver: Seq<char>, title: Seq<char>, body: Seq<char>) -> Seq<
    char,
> {
    "#"@ + decimal(pr as nat) + " a=@"@ + author + " r=@"@ + approver + "\n\n## "@ + title + " ##\n\n"@ + body
}

/// The GitHub user interface: which pipeline each repository's pull
/// requests go to.
pub struct Worker {
    pub repos: Vec<(Repo, PipelineId)>,
}

impl View for Worker {
    type V = Seq<(RepoView, PipelineId)>;

    open spec fn view(&self) -> Seq<(RepoView, PipelineId)> {
        self.repos@.map_values(|p: (Repo, PipelineId)| (p.0@, p.1))
    }
}

/// The pipeline of the first entry for `repo`.
pub open spec fn repo_pipeline(repos: Seq<(RepoView, PipelineId)>, repo: RepoView) -> Option<PipelineId> {
    crate::config::toml::assoc_get(repos, repo)
}

/// The repository of the last entry for pipeline `pipeline_id`.
pub open spec fn pipeline_repo(repos: Seq<(RepoView, PipelineId)>, pipeline_id: PipelineId) -> Option<RepoView>
    decreases repos.len(),
{
    if repos.len() == 0 {
        None
    } else if repos.last().1 == pipeline_id {
        Some(repos.last().0)
    } else {
        pipeline_repo(repos.drop_last(), pipeline_id)
    }
}

/// What a webhook request leads to; see [`Worker::handle_webhook`].
pub open spec fn spec_handle_webhook(repos: Seq<(RepoView, PipelineId)>, payload: WebhookPayload) -> (
    WebhookStatus,
    FollowUpView,
) {
    match payload {
        WebhookPayload::IssueComment(None) => (WebhookStatus::BadRequest, FollowUpView::Nothing),
        WebhookPayload::IssueComment(Some(d)) => (WebhookStatus::NoContent, spec_comment_follow_up(repos, d)),
        WebhookPayload::PullRequest(Some(_)) => (WebhookStatus::NoContent, FollowUpView::Nothing),
        WebhookPayload::Ping(Some(_)) => (WebhookStatus::NoContent, FollowUpView::Nothing),
        _ => (WebhookStatus::BadRequest, FollowUpView::Nothing),
    }
}

/// A comment on a pull request of a known repository that is not closed
/// approves it when it holds `r+`, and else cancels its approval when it
/// holds `r-`; any other comment does nothing.
pub open spec fn spec_comment_follow_up(repos: Seq<(RepoView, PipelineId)>, d: CommentDesc) -> FollowUpView {
    let repo = RepoView { owner: d.repo_owner@, repo: d.repo_name@ };
    if !d.is_pull_request {
        FollowUpView::Nothing
    } else {
        match repo_pipeline(repos, repo) {
            None => FollowUpView::Nothing,
            Some(pid) => if d.issue_state@ == "closed"@ {
                FollowUpView::Nothing
            } else if spec_contains(d.comment_body@, "r+"@) {
                FollowUpView::Approve(
                    pid,
                    repo,
                    d.issue_number,
                    approval_message(d.issue_number, d.issue_user@, d.comment_user@, d.issue_title@, d.issue_body@),
                )
            } else if spec_contains(d.comment_body@, "r-"@) {
                FollowUpView::Cancel(pid, d.issue_number)
            } else {
                FollowUpView::Nothing
            },
        }
    }
}

/// The comment posted on a pull request for a status, if any.
pub open spec fn status_comment(status: ui::StatusView) -> Option<Seq<char>> {
    match status {
        ui::StatusView::StartingBuild(_, _) => Some("Testing PR ..."@),
        ui::StatusView::Success(_, _, _) => Some("Success"@),
        ui::StatusView::Failure(_, _, _) => Some("Build failed"@),
        ui::StatusView::Unmergeable(_) => Some("Merge conflict!"@),
        ui::StatusView::Unmoveable(_, _) => Some("Internal error: fast-forward master"@),
        _ => None,
    }
}

/// The comment posted on a pull request for a status; see
/// [`status_comment`].
pub fn comment_for(status: &ui::Status) -> (r: Option<&'static str>)
    ensures
        match r {
            Some(c) => status_comment(status@) == Some(c@),
            None => status_comment(status@) is None,
        },
{
    match status {
        ui::Status::StartingBuild(_, _) => Some("Testing PR ..."),
        ui::Status::Success(_, _, _) => Some("Success"),
        ui::Status::Failure(_, _, _) => Some("Build failed"),
        ui::Status::Unmergeable(_) => Some("Merge conflict!"),
        ui::Status::Unmoveable(_, _) => Some("Internal error: fast-forward master"),
        _ => None,
    }
}

impl Worker {
    /// No repositories.
    pub fn new() -> (r: Worker)
        ensures
            r@.len() == 0,
    {
        let r = Worker { repos: Vec::new() };
        proof {
            assert(r@ =~= Seq::<(RepoView, PipelineId)>::empty());
        }
        r
    }

    fn find_repo(&self, repo: &Repo) -> (r: Option<usize>)
        ensures
            match r {
                Some(i) => crate::config::toml::first_key(self@, repo@) == Some(i as int) && i < self@.len(),
                None => crate::config::toml::first_key(self@, repo@) is None,
            },
    {
        let mut i: usize = 0;
        while i < self.repos.len()
            invariant
                i <= self.repos.len(),
                forall|j: int| 0 <= j < i ==> self@[j].0 != repo@,
            decreases self.repos.len() - i,
        {
            if str_equal(self.repos[i].0.owner.as_str(), repo.owner.as_str()) && str_equal(
                self.repos[i].0.repo.as_str(),
                repo.repo.as_str(),
            ) {
                proof {
                    crate::config::toml::lemma_first_key_found(self@, repo@, i as int);
                }
                return Some(i);
            }
            i = i + 1;
        }
        proof {
            crate::config::toml::lemma_first_key_absent(self@, repo@);
        }
        None
    }

    /// Send the pull requests of `repo` to pipeline `pipeline_id`.
    pub fn add_pipeline(&mut self, pipeline_id: PipelineId, repo: Repo)
        ensures
            final(self)@ == crate::config::toml::assoc_insert(old(self)@, repo@, pipeline_id),
    {
        let ghost old_v = self@;
        let ghost rv = repo@;
        match self.find_repo(&repo) {
            Some(i) => {
                self.repos.set(i, (repo, pipeline_id));
                proof {
                    assert(self@ =~= old_v.update(i as int, (rv, pipeline_id)));
                }
            },
            None => {
                self.repos.push((repo, pipeline_id));
                proof {
                    assert(self@ =~= old_v.push((rv, pipeline_id)));
                }
            },
        }
    }

    /// The repository whose pull requests go to `pipeline_id` (the last
    /// one added, if several do).
    pub fn repo_of(&self, pipeline_id: PipelineId) -> (r: Option<Repo>)
        ensures
            match r {
                Some(repo) => pipeline_repo(self@, pipeline_id) == Some(repo@),
                None => pipeline_repo(self@, pipeline_id) is None,
            },
    {
        let mut r: Option<Repo> = None;
        let mut i: usize = 0;
        proof {
            assert(self@.take(0) =~= Seq::<(RepoView, PipelineId)>::empty());
        }
        while i < self.repos.len()
            invariant
                i <= self.repos.len(),
                match r {
                    Some(repo) => pipeline_repo(self@.take(i as int), pipeline_id) == Some(repo@),
                    None => pipeline_repo(self@.take(i as int), pipeline_id) is None,
                },
            decreases self.repos.len() - i,
        {
            proof {
                assert(self@.take(i + 1).drop_last() =~= self@.take(i as int));
                assert(self@.take(i + 1).last() == self@[i as int]);
            }
            if self.repos[i].1 == pipeline_id {
                r = Some(self.repos[i].0.clone());
            }
            i = i + 1;
        }
        proof {
            assert(self@.take(i as int) =~= self@);
        }
        r
    }

    fn comment_follow_up(&self, d: CommentDesc) -> (r: WebhookFollowUp)
        ensures
            r@ == spec_comment_follow_up(self@, d),
    {
        let ghost dv = d;
        if !d.is_pull_request {
            return WebhookFollowUp::Nothing;
        }
        let repo = Repo { owner: d.repo_owner, repo: d.repo_name };
        let pid = match self.find_repo(&repo) {
            Some(i) => self.repos[i].1,
            None => return WebhookFollowUp::Nothing,
        };
        if str_equal(d.issue_state.as_str(), "closed") {
            WebhookFollowUp::Nothing
        } else if str_contains(d.comment_body.as_str(), "r+") {
            let mut msg = String::from_str("#");
            let n = u32_to_string(d.issue_number);
            msg.append(n.as_str());
            msg.append(" a=@");
            msg.append(d.issue_user.as_str());
            msg.append(" r=@");
            msg.append(d.comment_user.as_str());
            msg.append("\n\n## ");
            msg.append(d.issue_title.as_str());
            msg.append(" ##\n\n");
            msg.append(d.issue_body.as_str());
            WebhookFollowUp::Approve(pid, repo, Pr(d.issue_number), msg)
        } else if str_contains(d.comment_body.as_str(), "r-") {
            WebhookFollowUp::Cancel(pid, Pr(d.issue_number))
        } else {
            WebhookFollowUp::Nothing
        }
    }

    /// How to answer a webhook request, and what to do next: a comment
    /// that parsed, a pull request event, or a ping is answered 204; any
    /// other request 400.
    pub fn handle_webhook(&self, payload: WebhookPayload) -> (r: (WebhookStatus, WebhookFollowUp))
        ensures
            r.0 == spec_handle_webhook(self@, payload).0,
            r.1@ == spec_handle_webhook(self@, payload).1,
    {
        match payload {
            WebhookPayload::IssueComment(None) => (WebhookStatus::BadRequest, WebhookFollowUp::Nothing),
            WebhookPayload::IssueComment(Some(d)) => (WebhookStatus::NoContent, self.comment_follow_up(d)),
            WebhookPayload::PullRequest(Some(_)) => (WebhookStatus::NoContent, WebhookFollowUp::Nothing),
            WebhookPayload::Ping(Some(_)) => (WebhookStatus::NoContent, WebhookFollowUp::Nothing),
            _ => (WebhookStatus::BadRequest, WebhookFollowUp::Nothing),
        }
    }

    /// The event that an approval becomes once the pull request's head
    /// commit is known.
    pub fn approved_event(pipeline_id: PipelineId, pr: Pr, commit: Commit, message: String) -> (r: ui::Event)
        ensures
            r matches ui::Event::Approved(p, q, Some(c), m) && p == pipeline_id && q@ == decimal(pr.0 as nat) && c@
                == commit@ && m@ == message@,
    {
        ui::Event::Approved(pipeline_id, pr.to_ui(), Some(commit), message)
    }

    /// Where to post a comment on pull request `pr` of `repo`.
    pub fn comments_url(host: &str, repo: &Repo, pr: Pr) -> (r: String)
        ensures
            r@ == host@ + "/repos/"@ + repo.owner@ + "/"@ + repo.repo@ + "/issues/"@ + decimal(pr.0 as nat)
                + "/comments"@,
    {
        let mut s = String::from_str(host);
        s.append("/repos/");
        s.append(repo.owner.as_str());
        s.append("/");
        s.append(repo.repo.as_str());
        s.append("/issues/");
        let n = u32_to_string(pr.0);
        s.append(n.as_str());
        s.append("/comments");
        s
    }

    /// Where to read pull request `pr` of `repo`.
    pub fn pull_url(host: &str, repo: &Repo, pr: Pr) -> (r: String)
        ensures
            r@ == host@ + "/repos/"@ + repo.owner@ + "/"@ + repo.repo@ + "/pulls/"@ + decimal(pr.0 as nat),
    {
        let mut s = String::from_str(host);
        s.append("/repos/");
        s.append(repo.owner.as_str());
        s.append("/");
        s.append(repo.repo.as_str());
        s.append("/pulls/");
        let n = u32_to_string(pr.0);
        s.append(n.as_str());
        s
    }
}

} // verus!
