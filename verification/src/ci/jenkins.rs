//! CI through Jenkins: each CI job is a Jenkins job, triggered by URL with a
//! token, which reports back through the notification plugin.

use crate::ci::github_status::{BuildState, build_event, event_view};
use crate::ci::{CiId, Event};
use crate::config::toml::StaticJenkinsPipelinesConfig;
use crate::util::{parse_url, str_equal, url_parse_result};
use crate::vcs::Commit;
use vstd::prelude::*;
use vstd::string::*;

verus! {

/// A Jenkins job and the token that triggers it.
#[derive(Debug, PartialEq, Eq, Hash)]
pub struct Job {
    pub name: String,
    pub token: String,
}

pub struct JobView {
    pub name: Seq<char>,
    pub token: Seq<char>,
}

impl View for Job {
    type V = JobView;

    open spec fn view(&self) -> JobView {
        JobView { name: self.name@, token: self.token@ }
    }
}

impl Clone for Job {
    fn clone(&self) -> (r: Job)
        ensures
            r == *self,
    {
        Job { name: self.name.clone(), token: self.token.clone() }
    }
}

/// A build notice from Jenkins' notification plugin: the job's name, the
/// build's phase and status, the commit it built, and its page.
pub struct ResultDesc {
    pub name: String,
    pub phase: String,
    pub status: Option<String>,
    pub commit: String,
    pub full_url: String,
}

/// A `STARTED` build has started; a `COMPLETED` one succeeded when its
/// status is `SUCCESS`, and failed with any other status; other notices
/// mean nothing.
pub open spec fn spec_result_state(phase: Seq<char>, status: Option<Seq<char>>) -> Option<BuildState> {
    if phase == "STARTED"@ {
        Some(BuildState::Started)
    } else if phase == "COMPLETED"@ {
        match status {
            Some(s) => if s == "SUCCESS"@ {
                Some(BuildState::Succeeded)
            } else {
                Some(BuildState::Failed)
            },
            None => None,
        }
    } else {
        None
    }
}

fn result_state(phase: &str, status: &Option<String>) -> (r: Option<BuildState>)
    ensures
        r == spec_result_state(
            phase@,
            match status {
                Some(s) => Some(s@),
                None => None,
            },
        ),
{
    if str_equal(phase, "STARTED") {
        Some(BuildState::Started)
    } else if str_equal(phase, "COMPLETED") {
        match status {
            Some(s) => if str_equal(s.as_str(), "SUCCESS") {
                Some(BuildState::Succeeded)
            } else {
                Some(BuildState::Failed)
            },
            None => None,
        }
    } else {
        None
    }
}

/// The CI jobs that run a Jenkins job, in order.
pub open spec fn ids_for_job(s: Seq<(CiId, JobView)>, name: Seq<char>) -> Seq<CiId> {
    s.filter(|p: (CiId, JobView)| p.1.name == name).map_values(|p: (CiId, JobView)| p.0)
}

/// The path that triggers a build of `job`.
pub open spec fn trigger_path(job: JobView) -> Seq<char> {
    "/job/"@ + job.name + "/build?token="@ + job.token
}

/// The Jenkins CI worker: which Jenkins job each CI job runs.
pub struct Worker {
    pub pipelines: StaticJenkinsPipelinesConfig,
}

impl Worker {
    /// The events of a build notice: one for each CI job that runs the
    /// notice's Jenkins job, in order, when the notice means something.
    pub fn handle_result(&self, desc: &ResultDesc) -> (r: Vec<Event>)
        ensures
            r@.map_values(|e: Event| event_view(e)) == match spec_result_state(
                desc.phase@,
                match desc.status {
                    Some(s) => Some(s@),
                    None => None,
                },
            ) {
                None => seq![],
                Some(st) => ids_for_job(self.pipelines@, desc.name@).map_values(
                    |id: CiId| (st, id, desc.commit@, url_parse_result(desc.full_url@)),
                ),
            },
    {
        let mut events: Vec<Event> = Vec::new();
        let st = match result_state(desc.phase.as_str(), &desc.status) {
            Some(st) => st,
            None => {
                proof {
                    assert(events@.map_values(|e: Event| event_view(e)) =~= seq![]);
                }
                return events;
            },
        };
        let ids = self.pipelines.ids_by_job_name(desc.name.as_str());
        assert(ids@ == ids_for_job(self.pipelines@, desc.name@));
        let ghost want = ids@.map_values(|id: CiId| (st, id, desc.commit@, url_parse_result(desc.full_url@)));
        let mut i: usize = 0;
        while i < ids.len()
            invariant
                i <= ids@.len(),
                want == ids@.map_values(|id: CiId| (st, id, desc.commit@, url_parse_result(desc.full_url@))),
                events@.len() == i,
                events@.map_values(|e: Event| event_view(e)) == want.take(i as int),
            decreases ids.len() - i,
        {
            let url = parse_url(desc.full_url.as_str());
            let e = build_event(st, ids[i], &desc.commit, url);
            let ghost old_events = events@;
            events.push(e);
            proof {
                assert(want[i as int] == event_view(e));
                assert(events@ =~= old_events.push(e));
                assert(events@.map_values(|e: Event| event_view(e)) =~= old_events.map_values(
                    |e: Event| event_view(e),
                ).push(event_view(e)));
                assert(events@.map_values(|e: Event| event_view(e)) =~= want.take(i + 1));
            }
            i = i + 1;
        }
        proof {
            assert(want.take(i as int) =~= want);
        }
        events
    }

    /// The path to request to start a build for CI job `id`; `None` when no
    /// Jenkins job is configured for it.
    pub fn trigger(&self, id: CiId) -> (r: Option<String>)
        ensures
            match r {
                Some(p) => crate::config::toml::assoc_get(self.pipelines@, id) matches Some(job) && p@ == trigger_path(job),
                None => crate::config::toml::assoc_get(self.pipelines@, id) is None,
            },
    {
        match self.pipelines.job_by_id(id) {
            Some(job) => {
                let mut p = String::from_str("/job/");
                p.append(job.name.as_str());
                p.append("/build?token=");
                p.append(job.token.as_str());
                Some(p)
            },
            None => None,
        }
    }

    /// What to report once Jenkins answered a build request: a refused or
    /// failed request is a failed build, without a page.
    pub fn triggered(id: CiId, commit: Commit, accepted: bool) -> (r: Option<Event>)
        ensures
            accepted ==> r is None,
            !accepted ==> (r matches Some(Event::BuildFailed(i, c, None)) && i == id && c@ == commit@),
    {
        if accepted {
            None
        } else {
            Some(Event::BuildFailed(id, commit, None))
        }
    }
}

} // verus!
