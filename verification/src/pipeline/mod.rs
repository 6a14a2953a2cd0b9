//! A pipeline: the merge queue of one repository, and the rules by which it
//! reacts to what its user interface, version control and CI report.

use crate::ci::{self, CiId};
use crate::db::{CiState, DbView, PendingEntry, PendingEntryView, PipelineDb, QueueEntry, QueueEntryView, RunningEntry, RunningEntryView, without_keys};
use crate::ui::{self, Pr, Status, StatusView, spec_remote, url_view};
use crate::vcs::{self, Commit, Remote};
pub mod laws;

use vstd::prelude::*;

verus! {

broadcast use vstd::std_specs::hash::group_hash_axioms;

/// Identifier of one pipeline (a merge queue).
#[derive(Clone, Copy, Debug, PartialEq, Eq, Hash, Structural)]
pub struct PipelineId(pub i32);

/// Anything a worker reports to the pipelines.
#[derive(Debug, PartialEq, Eq)]
pub enum Event {
    UiEvent(ui::Event),
    VcsEvent(vcs::Event),
    CiEvent(ci::Event),
}

/// A message that a pipeline sends to one of its workers.
#[derive(Debug, PartialEq, Eq)]
pub enum Output {
    Ci(ci::Message),
    Ui(ui::Message),
    Vcs(vcs::Message),
}

/// The mathematical form of an [`Output`].
pub enum OutputView {
    StartBuild(i32, Seq<char>),
    SendResult(PipelineId, Seq<char>, StatusView),
    MergeToStaging(PipelineId, Seq<char>, Seq<char>, Seq<char>),
    MoveStagingToMaster(PipelineId, Seq<char>),
}

impl View for Output {
    type V = OutputView;

    open spec fn view(&self) -> OutputView {
        match self {
            Output::Ci(ci::Message::StartBuild(k, c)) => OutputView::StartBuild(k.0, c@),
            Output::Ui(ui::Message::SendResult(p, pr, s)) => OutputView::SendResult(*p, pr@, s@),
            Output::Vcs(vcs::Message::MergeToStaging(p, c, m, r)) => OutputView::MergeToStaging(
                *p,
                c@,
                m@,
                r@,
            ),
            Output::Vcs(vcs::Message::MoveStagingToMaster(p, c)) => OutputView::MoveStagingToMaster(*p, c@),
        }
    }
}

pub open spec fn outputs_view(s: Seq<Output>) -> Seq<OutputView> {
    s.map_values(|o: Output| o@)
}

/// A CI worker, as the pipeline sees it.
pub trait Ci {
    fn start_build(&self, ci_id: CiId, commit: Commit);
}

/// A user-interface worker, as the pipeline sees it.
pub trait Ui {
    fn send_result(&self, pipeline_id: PipelineId, pr: Pr, status: Status);
}

/// A version-control worker, as the pipeline sees it.
pub trait Vcs {
    fn merge_to_staging(&self, pipeline_id: PipelineId, pull_commit: Commit, message: String, remote: Remote);

    fn move_staging_to_master(&self, pipeline_id: PipelineId, merge_commit: Commit);
}

/// Hand each message, in order, to the worker it is for; a CI message goes
/// to the first worker registered under its CI job.
pub fn deliver<'a, C: Ci, U: Ui, V: Vcs>(outputs: Vec<Output>, ci: &Vec<(CiId, &'a C)>, ui: &U, vcs: &V) {
    let mut i: usize = 0;
    while i < outputs.len()
        invariant
            i <= outputs.len(),
        decreases outputs.len() - i,
    {
        match &outputs[i] {
            Output::Ci(ci::Message::StartBuild(ci_id, commit)) => {
                let mut j: usize = 0;
                while j < ci.len()
                    invariant
                        j <= ci.len(),
                    decreases ci.len() - j,
                {
                    if ci[j].0 == *ci_id {
                        ci[j].1.start_build(*ci_id, commit.clone());
                        break;
                    }
                    j = j + 1;
                }
            },
            Output::Ui(ui::Message::SendResult(pipeline_id, pr, status)) => {
                ui.send_result(*pipeline_id, pr.clone(), status.clone());
            },
            Output::Vcs(vcs::Message::MergeToStaging(pipeline_id, pull_commit, message, remote)) => {
                vcs.merge_to_staging(*pipeline_id, pull_commit.clone(), message.clone(), remote.clone());
            },
            Output::Vcs(vcs::Message::MoveStagingToMaster(pipeline_id, merge_commit)) => {
                vcs.move_staging_to_master(*pipeline_id, merge_commit.clone());
            },
        }
        i = i + 1;
    }
}

/// A pipeline: its identifier, and the CI jobs that must all pass.
pub struct Pipeline {
    pub id: PipelineId,
    pub ci: Vec<CiId>,
}

pub open spec fn ci_ids(ci: Seq<CiId>) -> Seq<i32> {
    ci.map_values(|c: CiId| c.0)
}

// ----- The rules, as a function from store and event to store and messages.

/// Approving `commit` of `pr`: cancel whatever of `pr` was queued or
/// running, and queue it at the back.
pub open spec fn approve(
    id: PipelineId,
    db: DbView,
    pr: Seq<char>,
    commit: Seq<char>,
    message: Seq<char>,
) -> (DbView, Seq<OutputView>) {
    let d = db.cancel_by_pr(pr);
    (
        DbView { queue: d.queue.push(QueueEntryView { commit, pr, message }), ..d },
        seq![OutputView::SendResult(id, pr, StatusView::Approved(commit))],
    )
}

pub open spec fn step_ui(id: PipelineId, db: DbView, e: ui::Event) -> (DbView, Seq<OutputView>) {
    match e {
        ui::Event::Approved(_, pr, commit, message) => match (commit, db.peek_pending_by_pr(pr@)) {
            (Some(r), Some(p)) => if r@ != p.commit {
                (db, seq![OutputView::SendResult(id, pr@, StatusView::Invalidated)])
            } else {
                approve(id, db, pr@, r@, message@)
            },
            (Some(r), None) => approve(id, db, pr@, r@, message@),
            (None, Some(p)) => approve(id, db, pr@, p.commit, message@),
            (None, None) => (db, seq![OutputView::SendResult(id, pr@, StatusView::NoCommit)]),
        },
        ui::Event::Opened(_, pr, commit, title, url) => (
            db.add_pending(PendingEntryView { commit: commit@, pr: pr@, title: title@, url: url@ }),
            seq![],
        ),
        ui::Event::Changed(_, pr, commit, title, url) => (
            db.cancel_by_pr_different_commit(pr@, commit@).add_pending(
                PendingEntryView { commit: commit@, pr: pr@, title: title@, url: url@ },
            ),
            if db.cancels_other_commit(pr@, commit@) {
                seq![OutputView::SendResult(id, pr@, StatusView::Invalidated)]
            } else {
                seq![]
            },
        ),
        ui::Event::Closed(_, pr) => (db.take_pending_by_pr(pr@).cancel_by_pr(pr@), seq![]),
        ui::Event::Canceled(_, pr) => (db.cancel_by_pr(pr@), seq![]),
    }
}

pub open spec fn step_vcs(
    id: PipelineId,
    ci: Seq<i32>,
    db: DbView,
    e: vcs::Event,
) -> (DbView, Seq<OutputView>) {
    let taken = DbView { running: None, ..db };
    match db.running {
        None => (db, seq![]),
        Some(r) => match e {
            vcs::Event::MergedToStaging(_, pull, merge) => {
                if r.pull_commit != pull@ || r.merge_commit is Some || r.canceled || r.built {
                    (taken, seq![])
                } else {
                    (
                        DbView {
                            running: Some(RunningEntryView { merge_commit: Some(merge@), ..r }),
                            cis: without_keys(db.cis, ci),
                            ..db
                        },
                        ci.map_values(|k: i32| OutputView::StartBuild(k, merge@)) + seq![
                            OutputView::SendResult(id, r.pr, StatusView::StartingBuild(pull@, merge@)),
                        ],
                    )
                }
            },
            vcs::Event::FailedMergeToStaging(_, pull) => {
                if r.pull_commit != pull@ || r.merge_commit is Some || r.built || r.canceled {
                    (taken, seq![])
                } else {
                    (taken, seq![OutputView::SendResult(id, r.pr, StatusView::Unmergeable(pull@))])
                }
            },
            vcs::Event::FailedMoveToMaster(_, merge) => match r.merge_commit {
                Some(m) => if m != merge@ || r.canceled || !r.built {
                    (taken, seq![])
                } else {
                    (
                        taken,
                        seq![OutputView::SendResult(id, r.pr, StatusView::Unmoveable(r.pull_commit, m))],
                    )
                },
                None => (taken, seq![]),
            },
            vcs::Event::MovedToMaster(_, merge) => match r.merge_commit {
                Some(m) => if m != merge@ || r.canceled || !r.built {
                    (taken, seq![])
                } else {
                    (
                        taken,
                        seq![OutputView::SendResult(id, r.pr, StatusView::Completed(r.pull_commit, m))],
                    )
                },
                None => (taken, seq![]),
            },
        },
    }
}

/// Whether every CI job of the pipeline has succeeded.
pub open spec fn all_succeeded(ci: Seq<i32>, cis: Map<i32, (CiState, Seq<char>)>) -> bool {
    forall|i: int|
        0 <= i < ci.len() ==> #[trigger] cis.contains_key(ci[i]) && cis[ci[i]].0 == CiState::Succeeded
}

pub open spec fn step_ci(
    id: PipelineId,
    ci: Seq<i32>,
    db: DbView,
    e: ci::Event,
) -> (DbView, Seq<OutputView>) {
    let taken = DbView { running: None, ..db };
    match db.running {
        None => (db, seq![]),
        Some(r) => match e {
            ci::Event::BuildStarted(_, c, url) => match r.merge_commit {
                Some(m) => if m != c@ || r.canceled || r.built {
                    (db, seq![])
                } else {
                    (
                        db,
                        seq![OutputView::SendResult(id, r.pr, StatusView::Testing(r.pull_commit, c@, url_view(url)))],
                    )
                },
                None => (db, seq![]),
            },
            ci::Event::BuildFailed(_, c, url) => match r.merge_commit {
                Some(m) => if m != c@ {
                    (db, seq![])
                } else if r.canceled {
                    (taken, seq![])
                } else if r.built {
                    (db, seq![])
                } else {
                    (
                        DbView { cis: without_keys(db.cis, ci), ..taken },
                        seq![OutputView::SendResult(id, r.pr, StatusView::Failure(r.pull_commit, m, url_view(url)))],
                    )
                },
                None => (taken, seq![]),
            },
            ci::Event::BuildSucceeded(k, c, url) => match r.merge_commit {
                Some(m) => if m != c@ || r.canceled || r.built {
                    (db, seq![])
                } else {
                    let cis = db.cis.insert(k.0, (CiState::Succeeded, c@));
                    if all_succeeded(ci, cis) {
                        (
                            DbView { running: Some(RunningEntryView { built: true, ..r }), cis, ..db },
                            seq![
                                OutputView::MoveStagingToMaster(id, m),
                                OutputView::SendResult(id, r.pr, StatusView::Success(r.pull_commit, m, url_view(url))),
                            ],
                        )
                    } else {
                        (DbView { cis, ..db }, seq![])
                    }
                },
                None => (db, seq![]),
            },
        },
    }
}

/// When nothing is running, start merging the head of the queue.
pub open spec fn advance(id: PipelineId, db: DbView) -> (DbView, Seq<OutputView>) {
    if db.running is None && db.queue.len() > 0 {
        let n = db.queue[0];
        (
            DbView {
                queue: db.queue.drop_first(),
                running: Some(
                    RunningEntryView {
                        pull_commit: n.commit,
                        merge_commit: None,
                        pr: n.pr,
                        message: n.message,
                        canceled: false,
                        built: false,
                    },
                ),
                ..db
            },
            seq![OutputView::MergeToStaging(id, n.commit, n.message, spec_remote(n.pr))],
        )
    } else {
        (db, seq![])
    }
}

pub open spec fn step(id: PipelineId, ci: Seq<i32>, db: DbView, e: Event) -> (DbView, Seq<OutputView>) {
    match e {
        Event::UiEvent(e) => step_ui(id, db, e),
        Event::VcsEvent(e) => step_vcs(id, ci, db, e),
        Event::CiEvent(e) => step_ci(id, ci, db, e),
    }
}

/// The store and the messages that handling `e` leads to.
pub open spec fn handle_event_spec(id: PipelineId, ci: Seq<i32>, db: DbView, e: Event) -> (
    DbView,
    Seq<OutputView>,
) {
    let (d1, o1) = step(id, ci, db, e);
    let (d2, o2) = advance(id, d1);
    (d2, o1 + o2)
}

/// Whether every recorded state of the pipeline's CI jobs is for `c`.
pub open spec fn ci_commits_match(ci: Seq<i32>, cis: Map<i32, (CiState, Seq<char>)>, c: Seq<char>) -> bool {
    forall|i: int| 0 <= i < ci.len() && #[trigger] cis.contains_key(ci[i]) ==> cis[ci[i]].1 == c
}

/// Whether a build result for `c` concerns the running entry, which is
/// merged as `c` and neither canceled nor built.
pub open spec fn build_result_applies(db: DbView, c: Seq<char>) -> bool {
    db.running matches Some(r) && r.merge_commit == Some(c) && !r.canceled && !r.built
}

/// The events that the pipeline accepts: events of the user interface and
/// the version control carry the pipeline's own identifier, and a CI result
/// that applies finds every recorded CI state at the same commit.
pub open spec fn accepts(id: PipelineId, ci: Seq<i32>, db: DbView, e: Event) -> bool {
    match e {
        Event::UiEvent(e) => e.spec_pipeline_id() == id,
        Event::VcsEvent(e) => e.spec_pipeline_id() == id,
        Event::CiEvent(ci::Event::BuildStarted(_, _, _)) => true,
        Event::CiEvent(ci::Event::BuildFailed(_, c, _)) => build_result_applies(db, c@) ==> ci_commits_match(
            ci,
            db.cis,
            c@,
        ),
        Event::CiEvent(ci::Event::BuildSucceeded(k, c, _)) => build_result_applies(db, c@)
            ==> ci_commits_match(ci, db.cis.insert(k.0, (CiState::Succeeded, c@)), c@),
    }
}

proof fn lemma_without_one_more(m: Map<i32, (CiState, Seq<char>)>, ids: Seq<i32>, k: i32)
    ensures
        without_keys(m, ids).remove(k) =~= without_keys(m, ids.push(k)),
{
    assert forall|x: i32| #![auto] ids.push(k).contains(x) <==> (ids.contains(x) || x == k) by {
        if ids.contains(x) {
            let j = choose|j: int| 0 <= j < ids.len() && ids[j] == x;
            assert(ids.push(k)[j] == x);
        }
        if x == k {
            assert(ids.push(k)[ids.len() as int] == x);
        }
        if ids.push(k).contains(x) {
            let j = choose|j: int| 0 <= j < ids.push(k).len() && ids.push(k)[j] == x;
            if j < ids.len() {
                assert(ids[j] == x);
            }
        }
    }
}

/// Append `o` to the messages of `out`.
fn emit(out: &mut Vec<Output>, o: Output)
    ensures
        outputs_view(final(out)@) == outputs_view(old(out)@).push(o@),
{
    let ghost before = out@;
    out.push(o);
    proof {
        assert(outputs_view(out@) =~= outputs_view(before).push(o@));
    }
}

impl Pipeline {
    /// A pipeline with the given identifier and CI jobs.
    pub fn new(id: PipelineId, ci: Vec<CiId>) -> (r: Pipeline)
        ensures
            r.id == id,
            r.ci@ == ci@,
    {
        Pipeline { id, ci }
    }

    fn result(&self, pr: Pr, status: Status) -> (r: Output)
        ensures
            r@ == OutputView::SendResult(self.id, pr@, status@),
    {
        Output::Ui(ui::Message::SendResult(self.id, pr, status))
    }

    fn approve(&self, db: &mut PipelineDb, pr: Pr, commit: Commit, message: String, out: &mut Vec<Output>)
        ensures
            final(db)@ == approve(self.id, old(db)@, pr@, commit@, message@).0,
            outputs_view(final(out)@) == outputs_view(old(out)@) + approve(
                self.id,
                old(db)@,
                pr@,
                commit@,
                message@,
            ).1,
    {
        let ghost o = outputs_view(out@);
        emit(out, self.result(pr.clone(), Status::Approved(commit.clone())));
        db.cancel_by_pr(&pr);
        db.push_queue(QueueEntry { commit, pr, message });
        proof {
            assert(outputs_view(out@) =~= o + approve(self.id, old(db)@, pr@, commit@, message@).1);
        }
    }

    fn handle_ui(&self, db: &mut PipelineDb, e: ui::Event, out: &mut Vec<Output>)
        requires
            e.spec_pipeline_id() == self.id,
        ensures
            final(db)@ == step_ui(self.id, old(db)@, e).0,
            outputs_view(final(out)@) == outputs_view(old(out)@) + step_ui(self.id, old(db)@, e).1,
    {
        let ghost o = outputs_view(out@);
        let ghost e0 = e;
        match e {
            ui::Event::Approved(_, pr, commit, message) => {
                let pending = db.peek_pending_by_pr(&pr);
                match (commit, pending) {
                    (Some(r), Some(p)) => {
                        if !r.same(&p.commit) {
                            emit(out, self.result(pr, Status::Invalidated));
                            proof {
                                assert(outputs_view(out@) =~= o + step_ui(self.id, old(db)@, e0).1);
                            }
                        } else {
                            self.approve(db, pr, r, message, out);
                        }
                    },
                    (Some(r), None) => {
                        self.approve(db, pr, r, message, out);
                    },
                    (None, Some(p)) => {
                        self.approve(db, pr, p.commit, message, out);
                    },
                    (None, None) => {
                        emit(out, self.result(pr, Status::NoCommit));
                        proof {
                            assert(outputs_view(out@) =~= o + step_ui(self.id, old(db)@, e0).1);
                        }
                    },
                }
            },
            ui::Event::Opened(_, pr, commit, title, url) => {
                db.add_pending(PendingEntry { commit, pr, title, url });
                proof {
                    assert(outputs_view(out@) =~= o + step_ui(self.id, old(db)@, e0).1);
                }
            },
            ui::Event::Changed(_, pr, commit, title, url) => {
                if db.cancel_by_pr_different_commit(&pr, &commit) {
                    emit(out, self.result(pr.clone(), Status::Invalidated));
                }
                db.add_pending(PendingEntry { commit, pr, title, url });
                proof {
                    assert(outputs_view(out@) =~= o + step_ui(self.id, old(db)@, e0).1);
                }
            },
            ui::Event::Closed(_, pr) => {
                let _ = db.take_pending_by_pr(&pr);
                db.cancel_by_pr(&pr);
                proof {
                    assert(outputs_view(out@) =~= o + step_ui(self.id, old(db)@, e0).1);
                }
            },
            ui::Event::Canceled(_, pr) => {
                db.cancel_by_pr(&pr);
                proof {
                    assert(outputs_view(out@) =~= o + step_ui(self.id, old(db)@, e0).1);
                }
            },
        }
    }

    /// Forget the state of every CI job of the pipeline, and ask each to
    /// build `merge`.
    fn start_builds(&self, db: &mut PipelineDb, merge: &Commit, out: &mut Vec<Output>)
        ensures
            final(db)@ == (DbView { cis: without_keys(old(db)@.cis, ci_ids(self.ci@)), ..old(db)@ }),
            outputs_view(final(out)@) == outputs_view(old(out)@) + ci_ids(self.ci@).map_values(
                |k: i32| OutputView::StartBuild(k, merge@),
            ),
    {
        let ghost d0 = db@;
        let ghost o0 = outputs_view(out@);
        let ghost ids = ci_ids(self.ci@);
        proof {
            assert(ids.take(0) =~= Seq::<i32>::empty());
            assert(without_keys(d0.cis, ids.take(0)) =~= d0.cis);
        }
        let mut i: usize = 0;
        while i < self.ci.len()
            invariant
                i <= self.ci.len(),
                ids == ci_ids(self.ci@),
                db@ == (DbView { cis: without_keys(d0.cis, ids.take(i as int)), ..d0 }),
                outputs_view(out@) == o0 + ids.take(i as int).map_values(|k: i32| OutputView::StartBuild(k, merge@)),
            decreases self.ci.len() - i,
        {
            let ci_id = self.ci[i];
            db.clear_ci_state(ci_id);
            emit(out, Output::Ci(ci::Message::StartBuild(ci_id, merge.clone())));
            proof {
                assert(ids.take(i + 1) =~= ids.take(i as int).push(ci_id.0));
                lemma_without_one_more(d0.cis, ids.take(i as int), ci_id.0);
                assert(db@.cis =~= without_keys(d0.cis, ids.take(i + 1)));
                assert(ids.take(i + 1).map_values(|k: i32| OutputView::StartBuild(k, merge@))
                    =~= ids.take(i as int).map_values(|k: i32| OutputView::StartBuild(k, merge@)).push(
                    OutputView::StartBuild(ci_id.0, merge@)));
                assert(outputs_view(out@) =~= o0 + ids.take(i + 1).map_values(|k: i32| OutputView::StartBuild(k, merge@)));
            }
            i = i + 1;
        }
        proof {
            assert(ids.take(i as int) =~= ids);
        }
    }

    /// Forget the state of every CI job of the pipeline.
    fn clear_builds(&self, db: &mut PipelineDb)
        ensures
            final(db)@ == (DbView { cis: without_keys(old(db)@.cis, ci_ids(self.ci@)), ..old(db)@ }),
    {
        let ghost d0 = db@;
        let ghost ids = ci_ids(self.ci@);
        proof {
            assert(ids.take(0) =~= Seq::<i32>::empty());
            assert(without_keys(d0.cis, ids.take(0)) =~= d0.cis);
        }
        let mut i: usize = 0;
        while i < self.ci.len()
            invariant
                i <= self.ci.len(),
                ids == ci_ids(self.ci@),
                db@ == (DbView { cis: without_keys(d0.cis, ids.take(i as int)), ..d0 }),
            decreases self.ci.len() - i,
        {
            let ci_id = self.ci[i];
            if let Some(_) = db.get_ci_state(ci_id) {
                db.clear_ci_state(ci_id);
            }
            proof {
                assert(ids.take(i + 1) =~= ids.take(i as int).push(ci_id.0));
                lemma_without_one_more(d0.cis, ids.take(i as int), ci_id.0);
                assert(db@.cis =~= without_keys(d0.cis, ids.take(i + 1)));
            }
            i = i + 1;
        }
        proof {
            assert(ids.take(i as int) =~= ids);
        }
    }

    /// Whether every CI job of the pipeline has succeeded.
    fn all_ci_succeeded(&self, db: &PipelineDb) -> (r: bool)
        ensures
            r == all_succeeded(ci_ids(self.ci@), db@.cis),
    {
        let ghost ids = ci_ids(self.ci@);
        let mut i: usize = 0;
        while i < self.ci.len()
            invariant
                i <= self.ci.len(),
                ids == ci_ids(self.ci@),
                forall|j: int| 0 <= j < i ==> #[trigger] db@.cis.contains_key(ids[j]) && db@.cis[ids[j]].0 == CiState::Succeeded,
            decreases self.ci.len() - i,
        {
            match db.get_ci_state(self.ci[i]) {
                Some((state, _)) => {
                    if state != CiState::Succeeded {
                        proof {
                            assert(!(db@.cis.contains_key(ids[i as int]) && db@.cis[ids[i as int]].0 == CiState::Succeeded));
                        }
                        return false;
                    }
                },
                None => {
                    proof {
                        assert(!db@.cis.contains_key(ids[i as int]));
                    }
                    return false;
                },
            }
            i = i + 1;
        }
        true
    }

    fn handle_vcs(&self, db: &mut PipelineDb, e: vcs::Event, out: &mut Vec<Output>)
        requires
            e.spec_pipeline_id() == self.id,
        ensures
            final(db)@ == step_vcs(self.id, ci_ids(self.ci@), old(db)@, e).0,
            outputs_view(final(out)@) == outputs_view(old(out)@) + step_vcs(self.id, ci_ids(self.ci@), old(db)@, e).1,
    {
        let ghost o = outputs_view(out@);
        let ghost e0 = e;
        let ghost ids = ci_ids(self.ci@);
        let running = match db.take_running() {
            Some(r) => r,
            None => {
                proof {
                    assert(outputs_view(out@) =~= o + step_vcs(self.id, ids, old(db)@, e0).1);
                }
                return;
            },
        };
        match e {
            vcs::Event::MergedToStaging(_, pull_commit, merge_commit) => {
                if !running.pull_commit.same(&pull_commit) || running.merge_commit.is_some()
                    || running.canceled || running.built {
                } else {
                    self.start_builds(db, &merge_commit, out);
                    emit(out, self.result(running.pr.clone(), Status::StartingBuild(pull_commit, merge_commit.clone())));
                    let mut running = running;
                    running.merge_commit = Some(merge_commit);
                    db.put_running(running);
                }
            },
            vcs::Event::FailedMergeToStaging(_, pull_commit) => {
                if !running.pull_commit.same(&pull_commit) || running.merge_commit.is_some()
                    || running.built || running.canceled {
                } else {
                    emit(out, self.result(running.pr, Status::Unmergeable(pull_commit)));
                }
            },
            vcs::Event::FailedMoveToMaster(_, merge_commit) => {
                match running.merge_commit {
                    Some(m) => {
                        if !m.same(&merge_commit) || running.canceled || !running.built {
                        } else {
                            emit(out, self.result(running.pr, Status::Unmoveable(running.pull_commit, m)));
                        }
                    },
                    None => {},
                }
            },
            vcs::Event::MovedToMaster(_, merge_commit) => {
                match running.merge_commit {
                    Some(m) => {
                        if !m.same(&merge_commit) || running.canceled || !running.built {
                        } else {
                            emit(out, self.result(running.pr, Status::Completed(running.pull_commit, m)));
                        }
                    },
                    None => {},
                }
            },
        }
        proof {
            assert(outputs_view(out@) =~= o + step_vcs(self.id, ids, old(db)@, e0).1);
        }
    }

    fn handle_ci(&self, db: &mut PipelineDb, e: ci::Event, out: &mut Vec<Output>)
        requires
            accepts(self.id, ci_ids(self.ci@), old(db)@, Event::CiEvent(e)),
        ensures
            final(db)@ == step_ci(self.id, ci_ids(self.ci@), old(db)@, e).0,
            outputs_view(final(out)@) == outputs_view(old(out)@) + step_ci(self.id, ci_ids(self.ci@), old(db)@, e).1,
    {
        let ghost o = outputs_view(out@);
        let ghost e0 = e;
        let ghost ids = ci_ids(self.ci@);
        match e {
            ci::Event::BuildStarted(_, building_commit, url) => {
                if let Some(running) = db.peek_running() {
                    if let Some(merged_commit) = running.merge_commit {
                        if !merged_commit.same(&building_commit) || running.canceled || running.built {
                        } else {
                            emit(out, self.result(running.pr, Status::Testing(running.pull_commit, building_commit, url)));
                        }
                    }
                }
            },
            ci::Event::BuildFailed(_, built_commit, url) => {
                if let Some(running) = db.take_running() {
                    match &running.merge_commit {
                        Some(merged_commit) => {
                            if !merged_commit.same(&built_commit) {
                                db.put_running(running);
                            } else if running.canceled {
                            } else if running.built {
                                db.put_running(running);
                            } else {
                                let merged_commit = merged_commit.clone();
                                self.clear_builds(db);
                                emit(out, self.result(running.pr, Status::Failure(running.pull_commit, merged_commit, url)));
                            }
                        },
                        None => {},
                    }
                }
            },
            ci::Event::BuildSucceeded(ci_id, built_commit, url) => {
                if let Some(running) = db.take_running() {
                    let mut running = running;
                    match &running.merge_commit {
                        Some(merged_commit) => {
                            if !merged_commit.same(&built_commit) || running.canceled || running.built {
                            } else {
                                let merged_commit = merged_commit.clone();
                                db.set_ci_state(ci_id, CiState::Succeeded, built_commit);
                                if self.all_ci_succeeded(db) {
                                    emit(out, Output::Vcs(vcs::Message::MoveStagingToMaster(self.id, merged_commit.clone())));
                                    emit(out, self.result(running.pr.clone(), Status::Success(running.pull_commit.clone(), merged_commit, url)));
                                    running.built = true;
                                }
                            }
                        },
                        None => {},
                    }
                    db.put_running(running);
                }
            },
        }
        proof {
            assert(outputs_view(out@) =~= o + step_ci(self.id, ids, old(db)@, e0).1);
        }
    }

    /// When nothing is running, start merging the head of the queue.
    fn advance(&self, db: &mut PipelineDb, out: &mut Vec<Output>)
        ensures
            final(db)@ == advance(self.id, old(db)@).0,
            outputs_view(final(out)@) == outputs_view(old(out)@) + advance(self.id, old(db)@).1,
    {
        let ghost o = outputs_view(out@);
        if db.peek_running().is_none() {
            if let Some(next) = db.pop_queue() {
                emit(out, Output::Vcs(vcs::Message::MergeToStaging(
                    self.id,
                    next.commit.clone(),
                    next.message.clone(),
                    next.pr.remote(),
                )));
                db.put_running(RunningEntry {
                    pr: next.pr,
                    message: next.message,
                    pull_commit: next.commit,
                    merge_commit: None,
                    canceled: false,
                    built: false,
                });
            }
        }
        proof {
            assert(outputs_view(out@) =~= o + advance(self.id, old(db)@).1);
        }
    }

    /// Whether every CI job of this pipeline that has a recorded state
    /// (with `k` taken as succeeded at `c`, when given) is at commit `c`.
    fn ci_at(&self, db: &PipelineDb, c: &Commit, k: Option<CiId>) -> (r: bool)
        ensures
            r == ci_commits_match(
                ci_ids(self.ci@),
                match k {
                    Some(k) => db@.cis.insert(k.0, (CiState::Succeeded, c@)),
                    None => db@.cis,
                },
                c@,
            ),
    {
        let ghost cis = match k {
            Some(k) => db@.cis.insert(k.0, (CiState::Succeeded, c@)),
            None => db@.cis,
        };
        let ghost ids = ci_ids(self.ci@);
        let mut i: usize = 0;
        while i < self.ci.len()
            invariant
                i <= self.ci@.len(),
                ids == ci_ids(self.ci@),
                cis == (match k {
                    Some(k) => db@.cis.insert(k.0, (CiState::Succeeded, c@)),
                    None => db@.cis,
                }),
                forall|j: int| 0 <= j < i && #[trigger] cis.contains_key(ids[j]) ==> cis[ids[j]].1 == c@,
            decreases self.ci.len() - i,
        {
            let id = self.ci[i];
            let is_k = match k {
                Some(k) => k.0 == id.0,
                None => false,
            };
            if !is_k {
                match db.get_ci_state(id) {
                    Some((_, commit)) => {
                        if !commit.same(c) {
                            assert(cis.contains_key(ids[i as int]));
                            return false;
                        }
                    },
                    None => {},
                }
            }
            i = i + 1;
        }
        true
    }

    /// Whether the pipeline accepts an event; see [`accepts`]. The pipeline
    /// must not be handed an event that it does not accept.
    pub fn accepts_event(&self, db: &PipelineDb, event: &Event) -> (r: bool)
        ensures
            r == accepts(self.id, ci_ids(self.ci@), db@, *event),
    {
        match event {
            Event::UiEvent(e) => e.pipeline_id() == self.id,
            Event::VcsEvent(e) => e.pipeline_id() == self.id,
            Event::CiEvent(ci::Event::BuildStarted(_, _, _)) => true,
            Event::CiEvent(ci::Event::BuildFailed(_, c, _)) => {
                !self.result_applies(db, c) || self.ci_at(db, c, None)
            },
            Event::CiEvent(ci::Event::BuildSucceeded(k, c, _)) => {
                !self.result_applies(db, c) || self.ci_at(db, c, Some(*k))
            },
        }
    }

    fn result_applies(&self, db: &PipelineDb, c: &Commit) -> (r: bool)
        ensures
            r == build_result_applies(db@, c@),
    {
        match &db.running {
            Some(r) => match &r.merge_commit {
                Some(m) => m.same(c) && !r.canceled && !r.built,
                None => false,
            },
            None => false,
        }
    }

    /// Handle one event: update the store, and return the messages for
    /// the workers, in the order in which they are to be sent.
    pub fn handle_event(&self, db: &mut PipelineDb, event: Event) -> (out: Vec<Output>)
        requires
            accepts(self.id, ci_ids(self.ci@), old(db)@, event),
        ensures
            final(db)@ == handle_event_spec(self.id, ci_ids(self.ci@), old(db)@, event).0,
            outputs_view(out@) == handle_event_spec(self.id, ci_ids(self.ci@), old(db)@, event).1,
    {
        let mut out: Vec<Output> = Vec::new();
        proof {
            assert(outputs_view(out@) =~= Seq::<OutputView>::empty());
        }
        let ghost e0 = event;
        match event {
            Event::UiEvent(e) => self.handle_ui(db, e, &mut out),
            Event::VcsEvent(e) => self.handle_vcs(db, e, &mut out),
            Event::CiEvent(e) => self.handle_ci(db, e, &mut out),
        }
        let ghost mid = outputs_view(out@);
        self.advance(db, &mut out);
        proof {
            let (d1, o1) = step(self.id, ci_ids(self.ci@), old(db)@, e0);
            assert(mid =~= o1);
        }
        out
    }
}

} // verus!