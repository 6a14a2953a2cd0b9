//! What the pages of the web view show: which page a path asks for, and
//! how the pull requests of a pipeline are grouped.

use crate::config::toml::{StaticViewPipelinesConfig, assoc_get};
use crate::db::{PendingEntry, PendingEntryView, QueueEntry, QueueEntryView, RunningEntry, RunningEntryView};
use crate::pipeline::PipelineId;
use crate::util::str_equal;
use vstd::prelude::*;
use vstd::string::*;
use vstd::utf8::encode_utf8;

verus! {

/// The page that a request asks for.
pub enum Route {
    /// The list of projects.
    Home,
    /// A project's pipeline, by the name in the path.
    Pipeline(String, PipelineId),
    /// The style sheet.
    Style,
    /// Answer 404.
    NotFound,
    /// Answer 400: the request's target is not a path.
    BadRequest,
}

/// The name in a path: the path without its leading `/`.
pub open spec fn path_name(path: Seq<char>) -> Seq<char> {
    if path[0] == '/' {
        path.subrange(1, path.len() as int)
    } else {
        path
    }
}

/// The page at `path` (`None` when the target is not a path): `/` is the
/// home page; a project's name is its pipeline's page; `style.css` is the
/// style sheet; anything else is not found.
pub fn route(pipelines: &StaticViewPipelinesConfig, path: Option<&str>) -> (r: Route)
    requires
        path matches Some(p) ==> p@.len() > 0,
    ensures
        match path {
            None => r is BadRequest,
            Some(p) => if p@ == "/"@ {
                r is Home
            } else {
                match assoc_get(pipelines@, path_name(p@)) {
                    Some(pid) => r matches Route::Pipeline(n, q) && n@ == path_name(p@) && q == pid,
                    None => if path_name(p@) == "style.css"@ {
                        r is Style
                    } else {
                        r is NotFound
                    },
                }
            },
        },
{
    let p = match path {
        Some(p) => p,
        None => return Route::BadRequest,
    };
    if str_equal(p, "/") {
        return Route::Home;
    }
    let len = p.unicode_len();
    let name = if p.get_char(0) == '/' {
        p.substring_char(1, len)
    } else {
        p
    };
    match pipelines.pipeline_by_name(name) {
        Some(pid) => Route::Pipeline(String::from_str(name), pid),
        None => if str_equal(name, "style.css") {
            Route::Style
        } else {
            Route::NotFound
        },
    }
}

/// Whether a pull request is in the queue.
pub open spec fn in_queue(queue: Seq<QueueEntryView>, pr: Seq<char>) -> bool {
    exists|i: int| 0 <= i < queue.len() && queue[i].pr == pr
}

/// How a pipeline's page groups its open pull requests: the one being
/// tested (the last open entry for the running pull request), those in the
/// queue, and those still in review, each in the order of the open
/// entries.
pub open spec fn spec_group(pending: Seq<PendingEntryView>, queue: Seq<QueueEntryView>, running: Option<Seq<char>>) -> (
    Option<PendingEntryView>,
    Seq<PendingEntryView>,
    Seq<PendingEntryView>,
)
    decreases pending.len(),
{
    if pending.len() == 0 {
        (None, seq![], seq![])
    } else {
        let (r, q, p) = spec_group(pending.drop_last(), queue, running);
        let e = pending.last();
        if running == Some(e.pr) {
            (Some(e), q, p)
        } else if in_queue(queue, e.pr) {
            (r, q.push(e), p)
        } else {
            (r, q, p.push(e))
        }
    }
}

/// The pull request being tested, if any.
pub open spec fn running_pr(running: Option<RunningEntry>) -> Option<Seq<char>> {
    match running {
        Some(e) => Some(e.pr@),
        None => None,
    }
}

pub open spec fn pending_view(s: Seq<PendingEntry>) -> Seq<PendingEntryView> {
    s.map_values(|e: PendingEntry| e@)
}

fn queued(queue: &Vec<QueueEntry>, pr: &crate::ui::Pr) -> (r: bool)
    ensures
        r == in_queue(queue@.map_values(|q: QueueEntry| q@), pr@),
{
    let ghost qv = queue@.map_values(|q: QueueEntry| q@);
    let mut i: usize = 0;
    while i < queue.len()
        invariant
            i <= queue@.len(),
            qv == queue@.map_values(|q: QueueEntry| q@),
            forall|j: int| 0 <= j < i ==> qv[j].pr != pr@,
        decreases queue.len() - i,
    {
        if queue[i].pr.same(pr) {
            assert(qv[i as int].pr == pr@);
            return true;
        }
        i = i + 1;
    }
    false
}

/// Group a pipeline's open pull requests; see [`spec_group`].
pub fn group(pending: Vec<PendingEntry>, queue: &Vec<QueueEntry>, running: &Option<RunningEntry>) -> (r: (
    Option<PendingEntry>,
    Vec<PendingEntry>,
    Vec<PendingEntry>,
))
    ensures
        ({
            let (gr, gq, gp) = spec_group(
                pending_view(pending@),
                queue@.map_values(|q: QueueEntry| q@),
                running_pr(*running),
            );
            &&& (match r.0 {
                Some(e) => gr == Some(e@),
                None => gr is None,
            })
            &&& pending_view(r.1@) == gq
            &&& pending_view(r.2@) == gp
        }),
{
    let ghost qv = queue@.map_values(|q: QueueEntry| q@);
    let ghost rv: Option<Seq<char>> = running_pr(*running);
    let ghost pv = pending_view(pending@);
    let mut run: Option<PendingEntry> = None;
    let mut qs: Vec<PendingEntry> = Vec::new();
    let mut ps: Vec<PendingEntry> = Vec::new();
    let mut rest = pending;
    proof {
        assert(pv.take(0) =~= Seq::<PendingEntryView>::empty());
        assert(pending_view(qs@) =~= Seq::<PendingEntryView>::empty());
        assert(pending_view(ps@) =~= Seq::<PendingEntryView>::empty());
    }
    let n = rest.len();
    let mut i: usize = 0;
    while i < n
        invariant
            i <= n,
            n == pv.len(),
            rest@.len() == n - i,
            forall|j: int| 0 <= j < rest@.len() ==> rest@[j]@ == pv[i + j],
            ({
                let (gr, gq, gp) = spec_group(pv.take(i as int), qv, rv);
                &&& (match run {
                    Some(e) => gr == Some(e@),
                    None => gr is None,
                })
                &&& pending_view(qs@) == gq
                &&& pending_view(ps@) == gp
            }),
            qv == queue@.map_values(|q: QueueEntry| q@),
            rv == running_pr(*running),
        decreases n - i,
    {
        let e = rest.remove(0);
        let ghost ev = e@;
        proof {
            assert(ev == pv[i as int]);
            assert(pv.take(i + 1).drop_last() =~= pv.take(i as int));
            assert(pv.take(i + 1).last() == ev);
        }
        let is_running = match running {
            Some(r) => r.pr.same(&e.pr),
            None => false,
        };
        if is_running {
            run = Some(e);
        } else if queued(queue, &e.pr) {
            let ghost old_q = qs@;
            qs.push(e);
            proof {
                assert(pending_view(qs@) =~= pending_view(old_q).push(ev));
            }
        } else {
            let ghost old_p = ps@;
            ps.push(e);
            proof {
                assert(pending_view(ps@) =~= pending_view(old_p).push(ev));
            }
        }
        i = i + 1;
    }
    proof {
        assert(pv.take(i as int) =~= pv);
    }
    (run, qs, ps)
}

/// The counts on the home page for a pipeline: whether a pull request is
/// being tested, how many are queued, how many are in review (open, but
/// neither queued nor tested), and how many are open.
pub fn home_counts(opened: usize, queue: usize, running: bool) -> (r: (usize, usize, usize, usize))
    requires
        queue + (if running {
            1int
        } else {
            0int
        }) <= opened,
    ensures
        r.0 == (if running {
            1int
        } else {
            0int
        }),
        r.1 == queue,
        r.2 == opened - queue - r.0,
        r.3 == opened,
{
    let running: usize = if running {
        1
    } else {
        0
    };
    (running, queue, opened - queue - running, opened)
}

/// Lexicographic order of byte strings, the order of `str`.
pub open spec fn bytes_le(a: Seq<u8>, b: Seq<u8>) -> bool
    decreases a.len(),
{
    if a.len() == 0 {
        true
    } else if b.len() == 0 {
        false
    } else if a[0] != b[0] {
        a[0] < b[0]
    } else {
        bytes_le(a.drop_first(), b.drop_first())
    }
}

/// The order of project names on the home page.
pub open spec fn name_le(a: Seq<char>, b: Seq<char>) -> bool {
    bytes_le(encode_utf8(a), encode_utf8(b))
}

/// Calls `str`'s `<=`, which orders strings lexicographically by their
/// bytes.
#[verifier::external_body]
fn str_le(a: &str, b: &str) -> (r: bool)
    ensures
        r == name_le(a@, b@),
{
    a <= b
}

/// Any two byte strings are ordered one way or the other.
pub proof fn lemma_bytes_le_total(a: Seq<u8>, b: Seq<u8>)
    ensures
        bytes_le(a, b) || bytes_le(b, a),
    decreases a.len(),
{
    if a.len() > 0 && b.len() > 0 && a[0] == b[0] {
        lemma_bytes_le_total(a.drop_first(), b.drop_first());
    }
}

/// The order of byte strings is transitive.
pub proof fn lemma_bytes_le_transitive(a: Seq<u8>, b: Seq<u8>, c: Seq<u8>)
    requires
        bytes_le(a, b),
        bytes_le(b, c),
    ensures
        bytes_le(a, c),
    decreases a.len(),
{
    if a.len() > 0 && b.len() > 0 && c.len() > 0 && a[0] == b[0] && b[0] == c[0] {
        lemma_bytes_le_transitive(a.drop_first(), b.drop_first(), c.drop_first());
    }
}

pub open spec fn names_view(s: Seq<(String, PipelineId)>) -> Seq<(Seq<char>, PipelineId)> {
    s.map_values(|p: (String, PipelineId)| (p.0@, p.1))
}

/// Whether the projects are in the order of their names.
pub open spec fn sorted_by_name(s: Seq<(Seq<char>, PipelineId)>) -> bool {
    forall|i: int, j: int| 0 <= i < j < s.len() ==> name_le(#[trigger] s[i].0, #[trigger] s[j].0)
}

/// The projects of the home page, in the order of their names.
pub fn sort_by_name(v: Vec<(String, PipelineId)>) -> (r: Vec<(String, PipelineId)>)
    ensures
        sorted_by_name(names_view(r@)),
        names_view(r@).to_multiset() == names_view(v@).to_multiset(),
{
    let ghost vv = names_view(v@);
    let mut r: Vec<(String, PipelineId)> = Vec::new();
    let mut rest = v;
    let n = rest.len();
    let mut i: usize = 0;
    proof {
        assert(vv.take(0) =~= Seq::<(Seq<char>, PipelineId)>::empty());
        assert(names_view(r@) =~= Seq::<(Seq<char>, PipelineId)>::empty());
    }
    while i < n
        invariant
            i <= n,
            n == vv.len(),
            rest@.len() == n - i,
            forall|j: int| 0 <= j < rest@.len() ==> (rest@[j].0@, rest@[j].1) == vv[i + j],
            sorted_by_name(names_view(r@)),
            names_view(r@).to_multiset() == vv.take(i as int).to_multiset(),
        decreases n - i,
    {
        let x = rest.remove(0);
        let ghost xv = (x.0@, x.1);
        let ghost rv = names_view(r@);
        let mut p: usize = 0;
        while p < r.len() && str_le(r[p].0.as_str(), x.0.as_str())
            invariant
                p <= r@.len(),
                rv == names_view(r@),
                xv == (x.0@, x.1),
                forall|j: int| 0 <= j < p ==> name_le(#[trigger] rv[j].0, xv.0),
            decreases r.len() - p,
        {
            p = p + 1;
        }
        proof {
            if p < r@.len() {
                assert(!name_le(rv[p as int].0, xv.0));
                lemma_bytes_le_total(encode_utf8(rv[p as int].0), encode_utf8(xv.0));
                assert forall|j: int| p < j < rv.len() implies name_le(xv.0, #[trigger] rv[j].0) by {
                    lemma_bytes_le_transitive(encode_utf8(xv.0), encode_utf8(rv[p as int].0), encode_utf8(rv[j].0));
                }
            }
        }
        r.insert(p, x);
        proof {
            let nv = names_view(r@);
            assert(nv =~= rv.insert(p as int, xv));
            assert(sorted_by_name(nv)) by {
                assert forall|a: int, b: int| 0 <= a < b < nv.len() implies name_le(#[trigger] nv[a].0, #[trigger] nv[b].0) by {
                    if a < p && b > p {
                        lemma_bytes_le_transitive(encode_utf8(nv[a].0), encode_utf8(xv.0), encode_utf8(nv[b].0));
                    }
                }
            }
            vstd::seq_lib::to_multiset_insert(rv, p as int, xv);
            assert(vv.take(i + 1) =~= vv.take(i as int).push(xv));
            vstd::seq_lib::to_multiset_build(vv.take(i as int), xv);
            assert(nv.to_multiset() =~= vv.take(i + 1).to_multiset());
        }
        i = i + 1;
    }
    proof {
        assert(vv.take(i as int) =~= vv);
    }
    r
}


/// How a pipeline's page sorts its open pull requests: an open entry whose
/// pull request is not the one being tested is listed as queued exactly
/// when some entry anywhere in the queue is for that pull request, and as
/// in review otherwise; nothing else is listed in either group. The entry
/// shown as being tested is an open entry of the running pull request, and
/// there is one whenever the running pull request has an open entry.
pub proof fn lemma_group_members(pending: Seq<PendingEntryView>, queue: Seq<QueueEntryView>, running: Option<Seq<char>>)
    ensures
        ({
            let (r, q, p) = spec_group(pending, queue, running);
            &&& forall|x: PendingEntryView|
                #[trigger] q.contains(x) <==> (pending.contains(x) && running != Some(x.pr) && exists|j: int|
                    0 <= j < queue.len() && queue[j].pr == x.pr)
            &&& forall|x: PendingEntryView|
                #[trigger] p.contains(x) <==> (pending.contains(x) && running != Some(x.pr) && !exists|j: int|
                    0 <= j < queue.len() && queue[j].pr == x.pr)
            &&& r matches Some(x) ==> pending.contains(x) && running == Some(x.pr)
            &&& (exists|k: int| 0 <= k < pending.len() && running == Some(#[trigger] pending[k].pr)) ==> r is Some
        }),
    decreases pending.len(),
{
    let (r, q, p) = spec_group(pending, queue, running);
    if pending.len() == 0 {
        assert forall|x: PendingEntryView| !q.contains(x) && !p.contains(x) && !pending.contains(x) by {}
    } else {
        let rest = pending.drop_last();
        let e = pending.last();
        lemma_group_members(rest, queue, running);
        let (r0, q0, p0) = spec_group(rest, queue, running);
        assert(pending == rest.push(e));
        assert forall|x: PendingEntryView| pending.contains(x) <==> (rest.contains(x) || x == e) by {
            if pending.contains(x) {
                let k = choose|k: int| 0 <= k < pending.len() && pending[k] == x;
                if k < rest.len() {
                    assert(rest[k] == x);
                }
            }
            if rest.contains(x) {
                let k = choose|k: int| 0 <= k < rest.len() && rest[k] == x;
                assert(pending[k] == x);
            }
            if x == e {
                assert(pending[pending.len() - 1] == x);
            }
        }
        if exists|k: int| 0 <= k < pending.len() && running == Some(#[trigger] pending[k].pr) {
            let k = choose|k: int| 0 <= k < pending.len() && running == Some(#[trigger] pending[k].pr);
            if k < rest.len() {
                assert(rest[k] == pending[k]);
            }
        }
        if running == Some(e.pr) {
            assert(q == q0 && p == p0);
        } else if in_queue(queue, e.pr) {
            assert(q == q0.push(e) && p == p0);
            assert forall|x: PendingEntryView| q.contains(x) <==> (q0.contains(x) || x == e) by {
                if q.contains(x) {
                    let k = choose|k: int| 0 <= k < q.len() && q[k] == x;
                    if k < q0.len() {
                        assert(q0[k] == x);
                    }
                }
                if q0.contains(x) {
                    let k = choose|k: int| 0 <= k < q0.len() && q0[k] == x;
                    assert(q[k] == x);
                }
                if x == e {
                    assert(q[q.len() - 1] == x);
                }
            }
        } else {
            assert(p == p0.push(e) && q == q0);
            assert forall|x: PendingEntryView| p.contains(x) <==> (p0.contains(x) || x == e) by {
                if p.contains(x) {
                    let k = choose|k: int| 0 <= k < p.len() && p[k] == x;
                    if k < p0.len() {
                        assert(p0[k] == x);
                    }
                }
                if p0.contains(x) {
                    let k = choose|k: int| 0 <= k < p0.len() && p0[k] == x;
                    assert(p[k] == x);
                }
                if x == e {
                    assert(p[p.len() - 1] == x);
                }
            }
        }
    }
}

} // verus!
