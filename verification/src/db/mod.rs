//! The state store: the merge queue of a pipeline, the pull request being
//! tested, the pull requests not yet approved, and the state of each CI job.

use crate::ci::CiId;
use crate::ui::Pr;
use crate::vcs::Commit;
use std::collections::HashMap;
use vstd::prelude::*;
use vstd::string::*;

pub mod laws;


verus! {

broadcast use vstd::std_specs::hash::group_hash_axioms;

#[verifier::external_type_specification]
#[verifier::external_body]
pub struct ExPostgresConfig(postgres::Config);

#[verifier::external_type_specification]
#[verifier::external_body]
pub struct ExPostgresError(postgres::Error);

/// Whether `postgres::Config` accepts `desc` as connection parameters.
pub uninterp spec fn postgres_params_valid(desc: Seq<char>) -> bool;

/// Calls `postgres::Config`'s `FromStr`, which parses connection parameters
/// (a URL or `key=value` pairs); it succeeds or not by the text alone.
#[verifier::external_body]
fn parse_postgres_config(desc: &str) -> (r: Result<postgres::Config, postgres::Error>)
    ensures
        (r is Ok) == postgres_params_valid(desc@),
{
    desc.parse::<postgres::Config>()
}

/// How to reach the state store: a SQLite file, or a PostgreSQL server
/// (its description, and the connection parameters parsed from it).
pub enum Builder {
    Sqlite(String),
    Postgres(String, postgres::Config),
}

/// Why a store's description was refused.
#[derive(Debug, PartialEq, Eq, Structural)]
pub enum BuilderError {
    /// The description starts with `postgresql:` but does not parse as
    /// connection parameters.
    InvalidPostgresParams,
}

/// The mathematical form of a [`Builder`]: the path of a SQLite file, or
/// the description of a PostgreSQL server's connection parameters.
pub enum BuilderView {
    Sqlite(Seq<char>),
    Postgres(Seq<char>),
}

impl View for Builder {
    type V = BuilderView;

    open spec fn view(&self) -> BuilderView {
        match self {
            Builder::Sqlite(p) => BuilderView::Sqlite(p@),
            Builder::Postgres(d, _) => BuilderView::Postgres(d@),
        }
    }
}

/// What a store's description names; see [`Builder::from_str`].
pub open spec fn spec_builder_from(desc: Seq<char>) -> Result<BuilderView, BuilderError> {
    if crate::util::spec_starts_with(desc, "postgresql:"@) {
        if postgres_params_valid(desc) {
            Ok(BuilderView::Postgres(desc))
        } else {
            Err(BuilderError::InvalidPostgresParams)
        }
    } else {
        Ok(BuilderView::Sqlite(desc))
    }
}

impl Builder {
    /// A description that starts with `postgresql:` names a PostgreSQL
    /// server; any other is the path of a SQLite file.
    pub fn from_str(desc: &str) -> (r: Result<Builder, BuilderError>)
        ensures
            match r {
                Ok(b) => spec_builder_from(desc@) == Ok::<_, BuilderError>(b@),
                Err(e) => spec_builder_from(desc@) == Err::<BuilderView, _>(e),
            },
            match r {
                Ok(Builder::Sqlite(path)) => !crate::util::spec_starts_with(desc@, "postgresql:"@) && path@ == desc@,
                Ok(Builder::Postgres(d, _)) => crate::util::spec_starts_with(desc@, "postgresql:"@) && postgres_params_valid(
                    desc@,
                ) && d@ == desc@,
                Err(e) => crate::util::spec_starts_with(desc@, "postgresql:"@) && !postgres_params_valid(desc@)
                    && e == BuilderError::InvalidPostgresParams,
            },
    {
        if crate::util::str_starts_with(desc, "postgresql:") {
            match parse_postgres_config(desc) {
                Ok(c) => Ok(Builder::Postgres(String::from_str(desc), c)),
                Err(_) => Err(BuilderError::InvalidPostgresParams),
            }
        } else {
            Ok(Builder::Sqlite(String::from_str(desc)))
        }
    }
}

/// The outcome that a CI job reported.
#[derive(Clone, Copy, Debug, PartialEq, Eq, Structural)]
pub enum CiState {
    Succeeded,
    Failed,
}

impl CiState {
    /// Decodes the number under which a state is stored.
    pub fn from_i32(this: i32) -> (r: CiState)
        requires
            this == 1 || this == 2,
        ensures
            this == 1 ==> r == CiState::Succeeded,
            this == 2 ==> r == CiState::Failed,
    {
        if this == 1 {
            CiState::Succeeded
        } else {
            CiState::Failed
        }
    }

    /// The number under which a state is stored.
    pub fn to_i32(&self) -> (r: i32)
        ensures
            *self == CiState::Succeeded ==> r == 1,
            *self == CiState::Failed ==> r == 2,
    {
        match self {
            CiState::Succeeded => 1,
            CiState::Failed => 2,
        }
    }
}

/// An item not yet in the build queue.
#[derive(Debug, PartialEq, Eq)]
pub struct PendingEntry {
    pub commit: Commit,
    pub pr: Pr,
    pub title: String,
    pub url: String,
}

pub struct PendingEntryView {
    pub commit: Seq<char>,
    pub pr: Seq<char>,
    pub title: Seq<char>,
    pub url: Seq<char>,
}

impl View for PendingEntry {
    type V = PendingEntryView;

    open spec fn view(&self) -> PendingEntryView {
        PendingEntryView {
            commit: self.commit@,
            pr: self.pr@,
            title: self.title@,
            url: self.url@,
        }
    }
}

impl Clone for PendingEntry {
    fn clone(&self) -> (r: PendingEntry)
        ensures
            r == *self,
    {
        PendingEntry {
            commit: self.commit.clone(),
            pr: self.pr.clone(),
            title: self.title.clone(),
            url: self.url.clone(),
        }
    }
}

/// An item in the build queue.
#[derive(Debug, PartialEq, Eq)]
pub struct QueueEntry {
    pub commit: Commit,
    pub pr: Pr,
    pub message: String,
}

pub struct QueueEntryView {
    pub commit: Seq<char>,
    pub pr: Seq<char>,
    pub message: Seq<char>,
}

impl View for QueueEntry {
    type V = QueueEntryView;

    open spec fn view(&self) -> QueueEntryView {
        QueueEntryView { commit: self.commit@, pr: self.pr@, message: self.message@ }
    }
}

impl Clone for QueueEntry {
    fn clone(&self) -> (r: QueueEntry)
        ensures
            r == *self,
    {
        QueueEntry { commit: self.commit.clone(), pr: self.pr.clone(), message: self.message.clone() }
    }
}

/// The item of the build queue that is currently being tested.
#[derive(Debug, PartialEq, Eq)]
pub struct RunningEntry {
    pub pull_commit: Commit,
    pub merge_commit: Option<Commit>,
    pub pr: Pr,
    pub message: String,
    pub canceled: bool,
    pub built: bool,
}

pub struct RunningEntryView {
    pub pull_commit: Seq<char>,
    pub merge_commit: Option<Seq<char>>,
    pub pr: Seq<char>,
    pub message: Seq<char>,
    pub canceled: bool,
    pub built: bool,
}

pub open spec fn commit_opt_view(c: Option<Commit>) -> Option<Seq<char>> {
    match c {
        Some(c) => Some(c@),
        None => None,
    }
}

impl View for RunningEntry {
    type V = RunningEntryView;

    open spec fn view(&self) -> RunningEntryView {
        RunningEntryView {
            pull_commit: self.pull_commit@,
            merge_commit: commit_opt_view(self.merge_commit),
            pr: self.pr@,
            message: self.message@,
            canceled: self.canceled,
            built: self.built,
        }
    }
}

impl Clone for RunningEntry {
    fn clone(&self) -> (r: RunningEntry)
        ensures
            r == *self,
    {
        let merge_commit = match &self.merge_commit {
            Some(c) => Some(c.clone()),
            None => None,
        };
        RunningEntry {
            pull_commit: self.pull_commit.clone(),
            merge_commit,
            pr: self.pr.clone(),
            message: self.message.clone(),
            canceled: self.canceled,
            built: self.built,
        }
    }
}

/// The mathematical form of a pipeline's store.
pub struct DbView {
    pub queue: Seq<QueueEntryView>,
    pub running: Option<RunningEntryView>,
    pub pending: Seq<PendingEntryView>,
    pub cis: Map<i32, (CiState, Seq<char>)>,
}

pub open spec fn running_view(r: Option<RunningEntry>) -> Option<RunningEntryView> {
    match r {
        Some(r) => Some(r@),
        None => None,
    }
}

/// Index of the first pending entry of pull request `pr`, if any.
pub open spec fn first_pending(s: Seq<PendingEntryView>, pr: Seq<char>) -> Option<int> {
    if exists|i: int| 0 <= i < s.len() && s[i].pr == pr {
        Some(choose|i: int| 0 <= i < s.len() && s[i].pr == pr && forall|j: int| 0 <= j < i ==> s[j].pr != pr)
    } else {
        None
    }
}

/// The pending records without those of pull request `pr`.
pub open spec fn pending_without_pr(s: Seq<PendingEntryView>, pr: Seq<char>) -> Seq<PendingEntryView> {
    s.filter(other_pending_pr(pr))
}

pub open spec fn other_pending_pr(pr: Seq<char>) -> spec_fn(PendingEntryView) -> bool {
    |e: PendingEntryView| e.pr != pr
}

/// The queue without the entries of pull request `pr`.
pub open spec fn queue_without_pr(q: Seq<QueueEntryView>, pr: Seq<char>) -> Seq<QueueEntryView> {
    q.filter(other_pr(pr))
}

pub open spec fn other_pr(pr: Seq<char>) -> spec_fn(QueueEntryView) -> bool {
    |e: QueueEntryView| e.pr != pr
}

pub open spec fn other_pr_or_same_commit(pr: Seq<char>, commit: Seq<char>) -> spec_fn(
    QueueEntryView,
) -> bool {
    |e: QueueEntryView| e.pr != pr || e.commit == commit
}

/// The queue without the entries of pull request `pr` at another commit than `commit`.
pub open spec fn queue_without_pr_other_commit(
    q: Seq<QueueEntryView>,
    pr: Seq<char>,
    commit: Seq<char>,
) -> Seq<QueueEntryView> {
    q.filter(other_pr_or_same_commit(pr, commit))
}

/// The map without the keys in `ids`.
pub open spec fn without_keys(m: Map<i32, (CiState, Seq<char>)>, ids: Seq<i32>) -> Map<
    i32,
    (CiState, Seq<char>),
> {
    Map::new(|k: i32| m.dom().contains(k) && !ids.contains(k), |k: i32| m[k])
}

impl DbView {
    /// Cancel everything of pull request `pr`: drop it from the queue, and
    /// mark it canceled if it is running.
    pub open spec fn cancel_by_pr(self, pr: Seq<char>) -> DbView {
        DbView {
            queue: queue_without_pr(self.queue, pr),
            running: match self.running {
                Some(r) => if r.pr == pr {
                    Some(RunningEntryView { canceled: true, ..r })
                } else {
                    Some(r)
                },
                None => None,
            },
            ..self
        }
    }

    /// Whether `cancel_by_pr_different_commit` cancels anything.
    pub open spec fn cancels_other_commit(self, pr: Seq<char>, commit: Seq<char>) -> bool {
        ||| exists|i: int| 0 <= i < self.queue.len() && self.queue[i].pr == pr && self.queue[i].commit != commit
        ||| (self.running matches Some(r) && r.pr == pr && r.pull_commit != commit)
    }

    /// Cancel the entries of pull request `pr` at another commit than `commit`.
    pub open spec fn cancel_by_pr_different_commit(self, pr: Seq<char>, commit: Seq<char>) -> DbView {
        DbView {
            queue: queue_without_pr_other_commit(self.queue, pr, commit),
            running: match self.running {
                Some(r) => if r.pr == pr && r.pull_commit != commit {
                    Some(RunningEntryView { canceled: true, ..r })
                } else {
                    Some(r)
                },
                None => None,
            },
            ..self
        }
    }

    /// Record a pending pull request: every earlier record of the same one
    /// is removed, and the new record goes last.
    pub open spec fn add_pending(self, e: PendingEntryView) -> DbView {
        DbView { pending: pending_without_pr(self.pending, e.pr).push(e), ..self }
    }

    /// The pending record of pull request `pr`.
    pub open spec fn peek_pending_by_pr(self, pr: Seq<char>) -> Option<PendingEntryView> {
        match first_pending(self.pending, pr) {
            Some(i) => Some(self.pending[i]),
            None => None,
        }
    }

    /// Remove the pending record of pull request `pr`.
    pub open spec fn take_pending_by_pr(self, pr: Seq<char>) -> DbView {
        DbView {
            pending: match first_pending(self.pending, pr) {
                Some(i) => self.pending.remove(i),
                None => self.pending,
            },
            ..self
        }
    }
}

/// The store of one pipeline.
pub struct PipelineDb {
    pub queue: Vec<QueueEntry>,
    pub running: Option<RunningEntry>,
    pub pending: Vec<PendingEntry>,
    pub ci_states: HashMap<i32, (CiState, Commit)>,
}

impl View for PipelineDb {
    type V = DbView;

    open spec fn view(&self) -> DbView {
        DbView {
            queue: self.queue@.map_values(|e: QueueEntry| e@),
            running: running_view(self.running),
            pending: self.pending@.map_values(|e: PendingEntry| e@),
            cis: self.ci_states@.map_values(|v: (CiState, Commit)| (v.0, v.1@)),
        }
    }
}

impl PipelineDb {
    /// An empty store.
    pub fn new() -> (r: PipelineDb)
        ensures
            r@.queue.len() == 0,
            r@.running is None,
            r@.pending.len() == 0,
            r@.cis == Map::<i32, (CiState, Seq<char>)>::empty(),
    {
        let r = PipelineDb {
            queue: Vec::new(),
            running: None,
            pending: Vec::new(),
            ci_states: HashMap::new(),
        };
        proof {
            assert(r@.queue =~= Seq::<QueueEntryView>::empty());
            assert(r@.pending =~= Seq::<PendingEntryView>::empty());
            assert(r@.cis =~= Map::<i32, (CiState, Seq<char>)>::empty());
        }
        r
    }

    /// Append an entry to the back of the queue.
    pub fn push_queue(&mut self, entry: QueueEntry)
        ensures
            final(self)@ == (DbView { queue: old(self)@.queue.push(entry@), ..old(self)@ }),
    {
        let ghost q = self.queue@;
        self.queue.push(entry);
        proof {
            assert(self.queue@ == q.push(entry));
            assert(self.queue@.map_values(|e: QueueEntry| e@) =~= q.map_values(|e: QueueEntry| e@).push(entry@));
        }
    }

    /// Remove and return the entry at the front of the queue.
    pub fn pop_queue(&mut self) -> (r: Option<QueueEntry>)
        ensures
            old(self)@.queue.len() == 0 ==> r is None && final(self)@ == old(self)@,
            old(self)@.queue.len() > 0 ==> (r matches Some(e) && e@ == old(self)@.queue[0]
                && final(self)@ == (DbView { queue: old(self)@.queue.drop_first(), ..old(self)@ })),
    {
        if self.queue.len() == 0 {
            None
        } else {
            let ghost q = self.queue@;
            let e = self.queue.remove(0);
            proof {
                assert(self.queue@ =~= q.drop_first());
                assert(self.queue@.map_values(|e: QueueEntry| e@) =~= q.map_values(|e: QueueEntry| e@).drop_first());
            }
            Some(e)
        }
    }

    /// The whole queue, front first.
    pub fn list_queue(&self) -> (r: Vec<QueueEntry>)
        ensures
            r@.map_values(|e: QueueEntry| e@) == self@.queue,
    {
        let mut r: Vec<QueueEntry> = Vec::new();
        let mut i: usize = 0;
        while i < self.queue.len()
            invariant
                i <= self.queue.len(),
                r@ == self.queue@.take(i as int),
            decreases self.queue.len() - i,
        {
            r.push(self.queue[i].clone());
            proof {
                assert(self.queue@.take(i + 1) =~= self.queue@.take(i as int).push(self.queue@[i as int]));
            }
            i = i + 1;
        }
        proof {
            assert(self.queue@.take(i as int) =~= self.queue@);
            assert(r@.map_values(|e: QueueEntry| e@) =~= self@.queue);
        }
        r
    }

    /// Make `entry` the running entry.
    pub fn put_running(&mut self, entry: RunningEntry)
        ensures
            final(self)@ == (DbView { running: Some(entry@), ..old(self)@ }),
    {
        self.running = Some(entry);
    }

    /// Remove and return the running entry.
    pub fn take_running(&mut self) -> (r: Option<RunningEntry>)
        ensures
            running_view(r) == old(self)@.running,
            final(self)@ == (DbView { running: None, ..old(self)@ }),
    {
        self.running.take()
    }

    /// A copy of the running entry.
    pub fn peek_running(&self) -> (r: Option<RunningEntry>)
        ensures
            r == self.running,
            running_view(r) == self@.running,
    {
        match &self.running {
            Some(e) => Some(e.clone()),
            None => None,
        }
    }

    /// Index of the first pending entry of `pr`.
    fn find_pending(&self, pr: &Pr) -> (r: Option<usize>)
        ensures
            match r {
                Some(i) => i < self.pending.len() && first_pending(self@.pending, pr@) == Some(i as int),
                None => first_pending(self@.pending, pr@) is None,
            },
    {
        let ghost s = self@.pending;
        let mut i: usize = 0;
        while i < self.pending.len()
            invariant
                i <= self.pending.len(),
                s == self@.pending,
                forall|j: int| 0 <= j < i ==> s[j].pr != pr@,
            decreases self.pending.len() - i,
        {
            if self.pending[i].pr.same(pr) {
                proof {
                    assert(s[i as int].pr == pr@);
                    let c = choose|k: int| 0 <= k < s.len() && s[k].pr == pr@ && forall|j: int| 0 <= j < k ==> s[j].pr != pr@;
                    assert(0 <= c < s.len() && s[c].pr == pr@ && forall|j: int| 0 <= j < c ==> s[j].pr != pr@);
                    if c < i {
                        assert(s[c].pr != pr@);
                    }
                    if c > i {
                        assert(s[i as int].pr != pr@);
                    }
                }
                return Some(i);
            }
            i = i + 1;
        }
        None
    }

    /// Record a pending pull request: every earlier record of the same one
    /// is removed, and the new record goes last.
    pub fn add_pending(&mut self, entry: PendingEntry)
        ensures
            final(self)@ == old(self)@.add_pending(entry@),
    {
        let ghost q = self@.pending;
        let mut kept: Vec<PendingEntry> = Vec::new();
        let mut i: usize = 0;
        while i < self.pending.len()
            invariant
                i <= self.pending.len(),
                q == self@.pending,
                kept@.map_values(|e: PendingEntry| e@) == q.take(i as int).filter(other_pending_pr(entry.pr@)),
            decreases self.pending.len() - i,
        {
            let ghost before = kept@;
            if !self.pending[i].pr.same(&entry.pr) {
                kept.push(self.pending[i].clone());
                proof {
                    assert(kept@.map_values(|e: PendingEntry| e@) =~= before.map_values(|e: PendingEntry| e@).push(q[i as int]));
                }
            }
            proof {
                assert(q.take(i + 1) =~= q.take(i as int).push(q[i as int]));
                q.take(i as int).lemma_filter_push(q[i as int], other_pending_pr(entry.pr@));
            }
            i = i + 1;
        }
        proof {
            assert(q.take(i as int) =~= q);
        }
        let ghost ev = entry@;
        let ghost k = kept@;
        kept.push(entry);
        proof {
            assert(kept@.map_values(|e: PendingEntry| e@) =~= k.map_values(|e: PendingEntry| e@).push(ev));
        }
        self.pending = kept;
    }

    /// A copy of the pending record of pull request `pr`.
    pub fn peek_pending_by_pr(&self, pr: &Pr) -> (r: Option<PendingEntry>)
        ensures
            match r {
                Some(e) => self@.peek_pending_by_pr(pr@) == Some(e@),
                None => self@.peek_pending_by_pr(pr@) is None,
            },
    {
        match self.find_pending(pr) {
            Some(i) => Some(self.pending[i].clone()),
            None => None,
        }
    }

    /// Remove and return the pending record of pull request `pr`.
    pub fn take_pending_by_pr(&mut self, pr: &Pr) -> (r: Option<PendingEntry>)
        ensures
            final(self)@ == old(self)@.take_pending_by_pr(pr@),
            match r {
                Some(e) => old(self)@.peek_pending_by_pr(pr@) == Some(e@),
                None => old(self)@.peek_pending_by_pr(pr@) is None,
            },
    {
        let ghost old_pending = self.pending@;
        match self.find_pending(pr) {
            Some(i) => {
                let e = self.pending.remove(i);
                proof {
                    assert(self.pending@ =~= old_pending.remove(i as int));
                    assert(self.pending@.map_values(|e: PendingEntry| e@) =~= old_pending.map_values(|e: PendingEntry| e@).remove(i as int));
                }
                Some(e)
            },
            None => None,
        }
    }

    /// All pending records.
    pub fn list_pending(&self) -> (r: Vec<PendingEntry>)
        ensures
            r@.map_values(|e: PendingEntry| e@) == self@.pending,
    {
        let mut r: Vec<PendingEntry> = Vec::new();
        let mut i: usize = 0;
        while i < self.pending.len()
            invariant
                i <= self.pending.len(),
                r@ == self.pending@.take(i as int),
            decreases self.pending.len() - i,
        {
            r.push(self.pending[i].clone());
            proof {
                assert(self.pending@.take(i + 1) =~= self.pending@.take(i as int).push(self.pending@[i as int]));
            }
            i = i + 1;
        }
        proof {
            assert(self.pending@.take(i as int) =~= self.pending@);
            assert(r@.map_values(|e: PendingEntry| e@) =~= self@.pending);
        }
        r
    }

    /// Cancel everything of pull request `pr`.
    pub fn cancel_by_pr(&mut self, pr: &Pr)
        ensures
            final(self)@ == old(self)@.cancel_by_pr(pr@),
    {
        let ghost q = self@.queue;
        let mut kept: Vec<QueueEntry> = Vec::new();
        let mut i: usize = 0;
        while i < self.queue.len()
            invariant
                i <= self.queue.len(),
                q == self@.queue,
                kept@.map_values(|e: QueueEntry| e@) == q.take(i as int).filter(other_pr(pr@)),
            decreases self.queue.len() - i,
        {
            let ghost before = kept@;
            if !self.queue[i].pr.same(pr) {
                kept.push(self.queue[i].clone());
                proof {
                    assert(kept@.map_values(|e: QueueEntry| e@) =~= before.map_values(|e: QueueEntry| e@).push(q[i as int]));
                }
            }
            proof {
                assert(q.take(i + 1) =~= q.take(i as int).push(q[i as int]));
                q.take(i as int).lemma_filter_push(q[i as int], other_pr(pr@));
            }
            i = i + 1;
        }
        proof {
            assert(q.take(i as int) =~= q);
        }
        self.queue = kept;
        if let Some(running) = &mut self.running {
            if running.pr.same(pr) {
                running.canceled = true;
            }
        }
    }

    /// Cancel the entries of pull request `pr` at another commit than
    /// `commit`; return whether anything was canceled.
    pub fn cancel_by_pr_different_commit(&mut self, pr: &Pr, commit: &Commit) -> (r: bool)
        ensures
            final(self)@ == old(self)@.cancel_by_pr_different_commit(pr@, commit@),
            r == old(self)@.cancels_other_commit(pr@, commit@),
    {
        let ghost q = self@.queue;
        let mut kept: Vec<QueueEntry> = Vec::new();
        let mut dropped = false;
        let mut i: usize = 0;
        while i < self.queue.len()
            invariant
                i <= self.queue.len(),
                q == self@.queue,
                kept@.map_values(|e: QueueEntry| e@) == q.take(i as int).filter(other_pr_or_same_commit(pr@, commit@)),
                dropped == exists|j: int| 0 <= j < i && q[j].pr == pr@ && q[j].commit != commit@,
            decreases self.queue.len() - i,
        {
            let ghost before = kept@;
            if !self.queue[i].pr.same(pr) || self.queue[i].commit.same(commit) {
                kept.push(self.queue[i].clone());
                proof {
                    assert(kept@.map_values(|e: QueueEntry| e@) =~= before.map_values(|e: QueueEntry| e@).push(q[i as int]));
                }
            } else {
                dropped = true;
            }
            proof {
                assert(q.take(i + 1) =~= q.take(i as int).push(q[i as int]));
                q.take(i as int).lemma_filter_push(q[i as int], other_pr_or_same_commit(pr@, commit@));
            }
            i = i + 1;
        }
        proof {
            assert(q.take(i as int) =~= q);
        }
        self.queue = kept;
        let mut canceled = dropped;
        if let Some(running) = &mut self.running {
            if running.pr.same(pr) && !running.pull_commit.same(commit) {
                running.canceled = true;
                canceled = true;
            }
        }
        canceled
    }

    /// Record the state of a CI job.
    pub fn set_ci_state(&mut self, ci_id: CiId, ci_state: CiState, commit: Commit)
        ensures
            final(self)@ == (DbView { cis: old(self)@.cis.insert(ci_id.0, (ci_state, commit@)), ..old(self)@ }),
    {
        let ghost m = self.ci_states@;
        self.ci_states.insert(ci_id.0, (ci_state, commit));
        proof {
            assert(self.ci_states@.map_values(|v: (CiState, Commit)| (v.0, v.1@)) =~= m.map_values(|v: (CiState, Commit)| (v.0, v.1@)).insert(ci_id.0, (ci_state, commit@)));
        }
    }

    /// Forget the state of a CI job.
    pub fn clear_ci_state(&mut self, ci_id: CiId)
        ensures
            final(self)@ == (DbView { cis: old(self)@.cis.remove(ci_id.0), ..old(self)@ }),
    {
        let ghost m = self.ci_states@;
        let k = ci_id.0;
        self.ci_states.remove(&k);
        proof {
            assert(self.ci_states@.map_values(|v: (CiState, Commit)| (v.0, v.1@)) =~= m.map_values(|v: (CiState, Commit)| (v.0, v.1@)).remove(ci_id.0));
        }
    }

    /// The recorded state of a CI job.
    pub fn get_ci_state(&self, ci_id: CiId) -> (r: Option<(CiState, Commit)>)
        ensures
            match r {
                Some(v) => self@.cis.contains_key(ci_id.0) && self@.cis[ci_id.0] == (v.0, v.1@),
                None => !self@.cis.contains_key(ci_id.0),
            },
    {
        let k = ci_id.0;
        match self.ci_states.get(&k) {
            Some(v) => Some((v.0, v.1.clone())),
            None => None,
        }
    }
}

} // verus!
