//! CI through GitHub's commit statuses: a status that GitHub reports for a
//! repository and context is the result of one CI job.

use crate::ci::{CiId, Event};
use crate::config::toml::StaticGithubStatusPipelinesConfig;
use crate::util::github_headers::WebhookStatus;
use crate::util::{parse_opt_url, str_equal, url_parse_result};
use crate::vcs::Commit;
use vstd::prelude::*;
use vstd::string::*;

verus! {

/// The repository and status context of one CI job.
#[derive(Debug, PartialEq, Eq, Hash)]
pub struct Repo {
    pub owner: String,
    pub repo: String,
    pub context: String,
}

pub struct RepoView {
    pub owner: Seq<char>,
    pub repo: Seq<char>,
    pub context: Seq<char>,
}

impl View for Repo {
    type V = RepoView;

    open spec fn view(&self) -> RepoView {
        RepoView { owner: self.owner@, repo: self.repo@, context: self.context@ }
    }
}

impl Clone for Repo {
    fn clone(&self) -> (r: Repo)
        ensures
            r == *self,
    {
        Repo { owner: self.owner.clone(), repo: self.repo.clone(), context: self.context.clone() }
    }
}

/// A commit status, as GitHub's `status` webhook describes it.
pub struct StatusDesc {
    pub state: String,
    pub target_url: Option<String>,
    pub context: String,
    pub sha: String,
    pub repo_name: String,
    pub owner_login: String,
}

/// What a verified webhook request carries: a status or a ping, with what
/// its JSON body gave (`None` when it did not have the expected shape), or
/// another event.
pub enum StatusPayload {
    Status(Option<StatusDesc>),
    Ping(Option<String>),
    Other,
}

/// What a status state means for a build.
#[derive(Clone, Copy, Debug, PartialEq, Eq, Structural)]
pub enum BuildState {
    Started,
    Failed,
    Succeeded,
}

/// `pending` means started; `failure` and `error` mean failed; `success`
/// means succeeded; any other state means nothing.
pub open spec fn spec_build_state(state: Seq<char>) -> Option<BuildState> {
    if state == "pending"@ {
        Some(BuildState::Started)
    } else if state == "failure"@ || state == "error"@ {
        Some(BuildState::Failed)
    } else if state == "success"@ {
        Some(BuildState::Succeeded)
    } else {
        None
    }
}

pub fn build_state(state: &str) -> (r: Option<BuildState>)
    ensures
        r == spec_build_state(state@),
{
    if str_equal(state, "pending") {
        Some(BuildState::Started)
    } else if str_equal(state, "failure") || str_equal(state, "error") {
        Some(BuildState::Failed)
    } else if str_equal(state, "success") {
        Some(BuildState::Succeeded)
    } else {
        None
    }
}

/// The mathematical form of a CI event: its kind, job, commit and URL.
pub open spec fn event_view(e: Event) -> (BuildState, CiId, Seq<char>, Option<Seq<char>>) {
    match e {
        Event::BuildStarted(i, c, u) => (BuildState::Started, i, c@, crate::ui::url_view(u)),
        Event::BuildFailed(i, c, u) => (BuildState::Failed, i, c@, crate::ui::url_view(u)),
        Event::BuildSucceeded(i, c, u) => (BuildState::Succeeded, i, c@, crate::ui::url_view(u)),
    }
}

/// The event of one CI job for a build in `state` of commit `sha`, whose
/// page is `url`.
pub fn build_event(state: BuildState, id: CiId, sha: &String, url: Option<String>) -> (r: Event)
    ensures
        event_view(r) == (state, id, sha@, crate::ui::url_view(url)),
{
    let commit = Commit::from(sha.clone());
    match state {
        BuildState::Started => Event::BuildStarted(id, commit, url),
        BuildState::Failed => Event::BuildFailed(id, commit, url),
        BuildState::Succeeded => Event::BuildSucceeded(id, commit, url),
    }
}

/// The events of a status: one for each CI job that follows the status's
/// repository and context, in order, when its state means something.
pub open spec fn spec_status_events(ids: Seq<CiId>, d: StatusDesc) -> Seq<(BuildState, CiId, Seq<char>, Option<Seq<char>>)> {
    match spec_build_state(d.state@) {
        None => seq![],
        Some(st) => ids.map_values(
            |id: CiId|
                (
                    st,
                    id,
                    d.sha@,
                    match d.target_url {
                        Some(u) => url_parse_result(u@),
                        None => None,
                    },
                ),
        ),
    }
}

/// The CI jobs that follow a repository and status context, in order.
pub open spec fn ids_for(s: Seq<(CiId, RepoView)>, repo: RepoView) -> Seq<CiId> {
    s.filter(|p: (CiId, RepoView)| p.1 == repo).map_values(|p: (CiId, RepoView)| p.0)
}

/// The GitHub status CI worker: which CI jobs follow which repository and
/// status context.
pub struct Worker {
    pub pipelines: StaticGithubStatusPipelinesConfig,
}

impl Worker {
    /// How to answer a request whose signature checked out, and the events
    /// to report: a status that parsed is answered 204 and reported to each
    /// of its CI jobs; a ping that parsed is answered 204; anything else
    /// 400.
    pub fn handle_webhook(&self, payload: StatusPayload) -> (r: (WebhookStatus, Vec<Event>))
        ensures
            match payload {
                StatusPayload::Status(Some(d)) => r.0 == WebhookStatus::NoContent && r.1@.map_values(
                    |e: Event| event_view(e),
                ) == spec_status_events(
                    ids_for(self.pipelines@, RepoView { owner: d.owner_login@, repo: d.repo_name@, context: d.context@ }),
                    d,
                ),
                StatusPayload::Ping(Some(_)) => r.0 == WebhookStatus::NoContent && r.1@.len() == 0,
                _ => r.0 == WebhookStatus::BadRequest && r.1@.len() == 0,
            },
    {
        match payload {
            StatusPayload::Status(Some(d)) => {
                let repo = Repo { owner: d.owner_login.clone(), repo: d.repo_name.clone(), context: d.context.clone() };
                let ids = self.pipelines.ids_by_repo(&repo);
                assert(ids@ == ids_for(self.pipelines@, repo@));
                let mut events: Vec<Event> = Vec::new();
                let st = match build_state(d.state.as_str()) {
                    Some(st) => st,
                    None => {
                        proof {
                            assert(events@.map_values(|e: Event| event_view(e)) =~= seq![]);
                        }
                        return (WebhookStatus::NoContent, events);
                    },
                };
                let ghost want = spec_status_events(ids@, d);
                let mut i: usize = 0;
                while i < ids.len()
                    invariant
                        i <= ids@.len(),
                        spec_build_state(d.state@) == Some(st),
                        want == spec_status_events(ids@, d),
                        events@.map_values(|e: Event| event_view(e)) == want.take(i as int),
                        events@.len() == i,
                        want.len() == ids@.len(),
                    decreases ids.len() - i,
                {
                    let url = parse_opt_url(&d.target_url);
                    let e = build_event(st, ids[i], &d.sha, url);
                    let ghost old_events = events@;
                    events.push(e);
                    proof {
                        assert(want[i as int] == event_view(e));
                        assert(events@ =~= old_events.push(e));
                        assert(events@.map_values(|e: Event| event_view(e)) =~= old_events.map_values(
                            |e: Event| event_view(e),
                        ).push(event_view(e)));
                        assert(events@.map_values(|e: Event| event_view(e)) =~= want.take(i + 1));
                    }
                    i = i + 1;
                }
                proof {
                    assert(want.take(i as int) =~= want);
                }
                (WebhookStatus::NoContent, events)
            },
            StatusPayload::Ping(Some(_)) => (WebhookStatus::NoContent, Vec::new()),
            _ => (WebhookStatus::BadRequest, Vec::new()),
        }
    }
}


/// What a commit status means to the CI jobs that follow its repository and
/// context: a status in state `failure` or `error` reports, for every such
/// job in order, that the build of the status's commit failed; `success`
/// that it succeeded; `pending` that it started.
pub proof fn lemma_status_states_reported(ids: Seq<CiId>, d: StatusDesc)
    ensures
        (d.state@ == "failure"@ || d.state@ == "error"@) ==> {
            let ev = spec_status_events(ids, d);
            &&& ev.len() == ids.len()
            &&& forall|i: int| 0 <= i < ids.len() ==> #[trigger] ev[i].0 == BuildState::Failed && ev[i].1 == ids[i] && ev[i].2 == d.sha@
        },
        d.state@ == "success"@ ==> {
            let ev = spec_status_events(ids, d);
            &&& ev.len() == ids.len()
            &&& forall|i: int| 0 <= i < ids.len() ==> #[trigger] ev[i].0 == BuildState::Succeeded && ev[i].1 == ids[i] && ev[i].2 == d.sha@
        },
        d.state@ == "pending"@ ==> {
            let ev = spec_status_events(ids, d);
            &&& ev.len() == ids.len()
            &&& forall|i: int| 0 <= i < ids.len() ==> #[trigger] ev[i].0 == BuildState::Started && ev[i].1 == ids[i] && ev[i].2 == d.sha@
        },
{
    reveal_strlit("pending");
    reveal_strlit("failure");
    reveal_strlit("error");
    reveal_strlit("success");
    assert("failure"@ != "pending"@) by {
        assert("failure"@[0] != "pending"@[0]);
    }
    assert("error"@ != "pending"@) by {
        assert("error"@[0] != "pending"@[0]);
    }
    assert("success"@ != "pending"@) by {
        assert("success"@[0] != "pending"@[0]);
    }
    assert("success"@ != "failure"@) by {
        assert("success"@[0] != "failure"@[0]);
    }
    assert("success"@ != "error"@) by {
        assert("success"@[0] != "error"@[0]);
    }
}

} // verus!
