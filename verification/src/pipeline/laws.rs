//! Properties of the pipeline's rules that hold across all stores and events.

use crate::ci;
use crate::db::{CiState, DbView, RunningEntryView, without_keys, queue_without_pr, queue_without_pr_other_commit, other_pr, other_pr_or_same_commit};
use crate::pipeline::{
    Event, OutputView, PipelineId, accepts, advance, all_succeeded, build_result_applies,
    ci_commits_match, handle_event_spec, step, step_ci, step_ui, step_vcs,
};
use crate::ui;
use vstd::prelude::*;

verus! {

/// A store is consistent for a pipeline when the running entry, once
/// merged and while neither canceled nor built, finds every recorded state
/// of the pipeline's CI jobs at its merge commit.
pub open spec fn consistent(ci: Seq<i32>, db: DbView) -> bool {
    match db.running {
        Some(r) => match r.merge_commit {
            Some(m) => (!r.canceled && !r.built) ==> ci_commits_match(ci, db.cis, m),
            None => true,
        },
        None => true,
    }
}

/// The pipeline never stays idle while pull requests are queued: after any
/// event, if nothing is running then the queue is empty.
pub proof fn lemma_never_idle_with_queue(id: PipelineId, ci: Seq<i32>, db: DbView, e: Event)
    ensures
        handle_event_spec(id, ci, db, e).0.running is None ==> handle_event_spec(id, ci, db, e).0.queue.len() == 0,
{
}

/// Master is only ever moved to the merge commit of the running entry, when
/// a CI job reports that commit built, the entry is neither canceled nor
/// already built, and every CI job of the pipeline has succeeded on it.
pub proof fn lemma_master_moves_only_after_all_ci_pass(
    id: PipelineId,
    ci: Seq<i32>,
    db: DbView,
    e: Event,
    i: int,
)
    requires
        accepts(id, ci, db, e),
        0 <= i < handle_event_spec(id, ci, db, e).1.len(),
        handle_event_spec(id, ci, db, e).1[i] is MoveStagingToMaster,
    ensures
        ({
            let (d2, out) = handle_event_spec(id, ci, db, e);
            let c = out[i]->MoveStagingToMaster_1;
            &&& out[i]->MoveStagingToMaster_0 == id
            &&& e matches Event::CiEvent(ci::Event::BuildSucceeded(_, bc, _)) && bc@ == c
            &&& build_result_applies(db, c)
            &&& all_succeeded(ci, d2.cis)
            &&& ci_commits_match(ci, d2.cis, c)
        }),
{
    let (d1, o1) = step(id, ci, db, e);
    let (d2, o2) = advance(id, d1);
    assert(handle_event_spec(id, ci, db, e).1 == o1 + o2);
    if i >= o1.len() {
        assert(o2[i - o1.len()] == (o1 + o2)[i]);
    }
    assert(i < o1.len());
    match e {
        Event::UiEvent(ue) => {
            match ue {
                ui::Event::Approved(_, pr, commit, message) => {}
                _ => {}
            }
        },
        Event::VcsEvent(ve) => {
            match db.running {
                Some(r) => {
                    match ve {
                        crate::vcs::Event::MergedToStaging(_, pull, merge) => {
                            if !(r.pull_commit != pull@ || r.merge_commit is Some || r.canceled || r.built) {
                                let starts = ci.map_values(|k: i32| OutputView::StartBuild(k, merge@));
                                if i < starts.len() {
                                    assert(o1[i] == starts[i]);
                                } else {
                                    assert(o1[i] == o1[o1.len() - 1]);
                                }
                            }
                        },
                        _ => {},
                    }
                },
                None => {},
            }
        },
        Event::CiEvent(ce) => {},
    }
}

/// Results of a canceled run are never reported: when the running entry is
/// canceled, no event of the version control or CI makes the pipeline send
/// a result to the user.
pub proof fn lemma_canceled_run_is_silent(id: PipelineId, ci: Seq<i32>, db: DbView, e: Event, i: int)
    requires
        db.running matches Some(r) && r.canceled,
        e is VcsEvent || e is CiEvent,
        0 <= i < handle_event_spec(id, ci, db, e).1.len(),
    ensures
        !(handle_event_spec(id, ci, db, e).1[i] is SendResult),
{
    let (d1, o1) = step(id, ci, db, e);
    let (d2, o2) = advance(id, d1);
    assert(o1.len() == 0);
    assert(handle_event_spec(id, ci, db, e).1 =~= o2);
}

/// Consistency is kept: from a consistent store, every accepted event leads
/// to a consistent store.
pub proof fn lemma_consistency_preserved(id: PipelineId, ci: Seq<i32>, db: DbView, e: Event)
    requires
        consistent(ci, db),
        accepts(id, ci, db, e),
    ensures
        consistent(ci, handle_event_spec(id, ci, db, e).0),
{
    let (d1, o1) = step(id, ci, db, e);
    assert(consistent(ci, d1)) by {
        match e {
            Event::VcsEvent(ve) => {
                match db.running {
                    Some(r) => {
                        match ve {
                            crate::vcs::Event::MergedToStaging(_, pull, merge) => {
                                if !(r.pull_commit != pull@ || r.merge_commit is Some || r.canceled || r.built) {
                                    assert forall|j: int| 0 <= j < ci.len() && #[trigger] d1.cis.contains_key(ci[j]) implies d1.cis[ci[j]].1 == merge@ by {
                                        assert(ci.contains(ci[j]));
                                    }
                                }
                            },
                            _ => {},
                        }
                    },
                    None => {},
                }
            },
            _ => {},
        }
    }
}

/// A pipeline that is fed only its own events never refuses one while its
/// store is consistent.
pub proof fn lemma_consistent_store_accepts(id: PipelineId, ci: Seq<i32>, db: DbView, e: Event)
    requires
        consistent(ci, db),
        e matches Event::UiEvent(ue) ==> ue.spec_pipeline_id() == id,
        e matches Event::VcsEvent(ve) ==> ve.spec_pipeline_id() == id,
    ensures
        accepts(id, ci, db, e),
{
    match e {
        Event::CiEvent(ci::Event::BuildSucceeded(k, c, _)) => {
            if build_result_applies(db, c@) {
                let cis = db.cis.insert(k.0, (CiState::Succeeded, c@));
                assert forall|j: int| 0 <= j < ci.len() && #[trigger] cis.contains_key(ci[j]) implies cis[ci[j]].1 == c@ by {
                    if ci[j] != k.0 {
                        assert(db.cis.contains_key(ci[j]));
                    }
                }
            }
        },
        _ => {},
    }
}

/// After a pull request changes to `commit`, no approval of it at another
/// commit stays queued, and a run of it at another commit is canceled.
pub proof fn lemma_change_invalidates_stale_approvals(
    id: PipelineId,
    ci: Seq<i32>,
    db: DbView,
    pr: ui::Pr,
    commit: crate::vcs::Commit,
    title: String,
    url: String,
)
    ensures
        ({
            let e = Event::UiEvent(ui::Event::Changed(id, pr, commit, title, url));
            let d2 = handle_event_spec(id, ci, db, e).0;
            &&& forall|j: int| 0 <= j < d2.queue.len() && #[trigger] d2.queue[j].pr == pr@ ==> d2.queue[j].commit == commit@
            &&& d2.running matches Some(r) ==> (r.pr == pr@ && r.pull_commit != commit@ ==> r.canceled)
        }),
{
    let e = Event::UiEvent(ui::Event::Changed(id, pr, commit, title, url));
    let (d1, o1) = step(id, ci, db, e);
    let q = queue_without_pr_other_commit(db.queue, pr@, commit@);
    assert(d1.queue == q);
    assert forall|j: int| 0 <= j < q.len() implies (#[trigger] q[j]).pr != pr@ || q[j].commit == commit@ by {
        db.queue.lemma_filter_pred(other_pr_or_same_commit(pr@, commit@), j);
    }
    let (d2, o2) = advance(id, d1);
    if d1.running is None && d1.queue.len() > 0 {
        assert forall|j: int| 0 <= j < d2.queue.len() && #[trigger] d2.queue[j].pr == pr@ implies d2.queue[j].commit == commit@ by {
            assert(d2.queue[j] == q[j + 1]);
        }
    }
}

/// After a pull request is canceled or closed, none of it stays queued, and
/// a run of it is canceled.
pub proof fn lemma_cancel_removes_pr(id: PipelineId, ci: Seq<i32>, db: DbView, e: Event, pr: ui::Pr)
    requires
        e == Event::UiEvent(ui::Event::Canceled(id, pr)) || e == Event::UiEvent(ui::Event::Closed(id, pr)),
    ensures
        ({
            let d2 = handle_event_spec(id, ci, db, e).0;
            &&& forall|j: int| 0 <= j < d2.queue.len() ==> (#[trigger] d2.queue[j]).pr != pr@
            &&& d2.running matches Some(r) ==> (r.pr == pr@ ==> r.canceled)
        }),
{
    let (d1, o1) = step(id, ci, db, e);
    let q = queue_without_pr(db.queue, pr@);
    assert(d1.queue == q);
    assert forall|j: int| 0 <= j < q.len() implies (#[trigger] q[j]).pr != pr@ by {
        db.queue.lemma_filter_pred(other_pr(pr@), j);
    }
    let (d2, o2) = advance(id, d1);
    if d1.running is None && d1.queue.len() > 0 {
        assert(d2.running->0.pr == q[0].pr);
        assert forall|j: int| 0 <= j < d2.queue.len() implies (#[trigger] d2.queue[j]).pr != pr@ by {
            assert(d2.queue[j] == q[j + 1]);
        }
    }
}

} // verus!
