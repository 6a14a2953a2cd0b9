//! CI through Buildbot: a job is a set of builders, triggered through a
//! change-hook poller, and done when all of its builders are.

use crate::ci::{CiId, Event};
use crate::util::str_equal;
use crate::vcs::Commit;
use vstd::prelude::*;
use vstd::string::*;

verus! {

/// The poller that triggers a job, and the builders that make it up.
#[derive(Debug, PartialEq, Eq, Hash)]
pub struct Job {
    pub poller: Option<String>,
    pub builders: Vec<String>,
}

/// The current build of one builder, as Buildbot's JSON API describes it:
/// the revisions of its source stamps, and its result text once it is
/// done.
pub struct BuildDesc {
    pub revisions: Vec<String>,
    pub text: Option<Vec<String>>,
}

/// What the builders of a job checked so far say: whether all succeeded,
/// and the revision they built.
pub struct Progress {
    pub is_success: bool,
    pub revision: Option<String>,
}

/// Whether a build's result text holds the word `successful`.
pub open spec fn text_successful(text: Seq<String>) -> bool {
    exists|i: int| 0 <= i < text.len() && text[i]@ == "successful"@
}

/// Take one builder's current build into account; `None` means the report
/// stops here: the build could not be read, is not done, has a text too
/// short, or built another revision than the builders before it.
pub open spec fn spec_check_builder(is_success: bool, revision: Option<Seq<char>>, build: Option<BuildDesc>) -> Option<
    (bool, Seq<char>),
> {
    match build {
        None => None,
        Some(b) => match b.text {
            None => None,
            Some(t) => if t@.len() < 2 {
                None
            } else {
                let rev = b.revisions@[0]@;
                match revision {
                    Some(r) => if r != rev {
                        None
                    } else {
                        Some((is_success && text_successful(t@), r))
                    },
                    None => Some((is_success && text_successful(t@), rev)),
                }
            },
        },
    }
}

fn contains_successful(text: &Vec<String>) -> (r: bool)
    ensures
        r == text_successful(text@),
{
    let mut i: usize = 0;
    while i < text.len()
        invariant
            i <= text@.len(),
            forall|j: int| 0 <= j < i ==> text@[j]@ != "successful"@,
        decreases text.len() - i,
    {
        if str_equal(text[i].as_str(), "successful") {
            return true;
        }
        i = i + 1;
    }
    false
}

impl Progress {
    /// No builder checked yet.
    pub fn new() -> (r: Progress)
        ensures
            r.is_success,
            r.revision is None,
    {
        Progress { is_success: true, revision: None }
    }

    /// Take one builder's current build into account (`None` when it
    /// could not be read); see [`spec_check_builder`].
    pub fn check_builder(self, build: Option<BuildDesc>) -> (r: Option<Progress>)
        requires
            build matches Some(b) ==> (b.text matches Some(t) ==> t@.len() >= 2 ==> b.revisions@.len() > 0),
        ensures
            match spec_check_builder(
                self.is_success,
                match self.revision {
                    Some(r) => Some(r@),
                    None => None,
                },
                build,
            ) {
                None => r is None,
                Some((ok, rev)) => r matches Some(p) && p.is_success == ok && (p.revision matches Some(x) && x@ == rev),
            },
    {
        let b = match build {
            Some(b) => b,
            None => return None,
        };
        let t = match &b.text {
            Some(t) => t,
            None => return None,
        };
        if t.len() < 2 {
            return None;
        }
        let ok = self.is_success && contains_successful(t);
        match self.revision {
            Some(r) => {
                if !str_equal(r.as_str(), b.revisions[0].as_str()) {
                    return None;
                }
                Some(Progress { is_success: ok, revision: Some(r) })
            },
            None => Some(Progress { is_success: ok, revision: Some(b.revisions[0].clone()) }),
        }
    }

    /// The result of a job once all its builders are checked: it
    /// succeeded, or failed, on the revision they built.
    pub fn result(self, id: CiId) -> (r: Event)
        requires
            self.revision is Some,
        ensures
            self.is_success ==> (r matches Event::BuildSucceeded(i, c, None) && i == id && c@ == self.revision->0@),
            !self.is_success ==> (r matches Event::BuildFailed(i, c, None) && i == id && c@ == self.revision->0@),
    {
        let rev = match self.revision {
            Some(r) => r,
            None => String::new(),
        };
        let commit = Commit::from(rev);
        if self.is_success {
            Event::BuildSucceeded(id, commit, None)
        } else {
            Event::BuildFailed(id, commit, None)
        }
    }
}

/// The address of a builder's current build on the Buildbot at `host`.
pub fn current_build_url(host: &str, builder: &str) -> (r: String)
    ensures
        r@ == host@ + "/json/builders/"@ + builder@ + "/builds/-1"@,
{
    let mut s = String::from_str(host);
    s.append("/json/builders/");
    s.append(builder);
    s.append("/builds/-1");
    s
}

/// The address of the change hook that starts builds on the Buildbot at
/// `host`.
pub fn change_hook_url(host: &str) -> (r: String)
    ensures
        r@ == host@ + "/change_hook/poller"@,
{
    let mut s = String::from_str(host);
    s.append("/change_hook/poller");
    s
}

/// What to report once Buildbot answered a build request: the build has
/// started, or, when the request was refused or failed, it has failed.
pub fn triggered(id: CiId, commit: Commit, accepted: bool) -> (r: Event)
    ensures
        accepted ==> (r matches Event::BuildStarted(i, c, None) && i == id && c@ == commit@),
        !accepted ==> (r matches Event::BuildFailed(i, c, None) && i == id && c@ == commit@),
{
    if accepted {
        Event::BuildStarted(id, commit, None)
    } else {
        Event::BuildFailed(id, commit, None)
    }
}


/// A job succeeds only if every builder does: after one more builder is
/// taken into account, the job still counts as successful exactly when it
/// did before and this builder's result text holds the word `successful`;
/// a failure once seen stays a failure. The revision is the one the first
/// builder built, and a builder of another revision stops the report.
pub proof fn lemma_check_builder_all_must_succeed(is_success: bool, revision: Option<Seq<char>>, build: Option<BuildDesc>)
    ensures
        spec_check_builder(is_success, revision, build) matches Some((ok, rev)) ==> {
            &&& build matches Some(b)
            &&& b.text matches Some(t)
            &&& ok == (is_success && exists|i: int| 0 <= i < t@.len() && #[trigger] t@[i]@ == "successful"@)
            &&& (!is_success ==> !ok)
            &&& rev == match revision {
                Some(r) => r,
                None => b.revisions@[0]@,
            }
        },
        (revision matches Some(r) && build matches Some(b) && b.revisions@.len() > 0 && b.revisions@[0]@ != r)
            ==> spec_check_builder(is_success, revision, build) is None,
{
}

} // verus!
