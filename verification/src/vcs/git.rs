//! Version control through a local git checkout and the `git` executable.

use crate::config::keys_view;
use crate::config::toml::{StaticGitPipelinesConfig, assoc_get};
use crate::pipeline::PipelineId;
use crate::vcs::{Commit, Event};
use vstd::prelude::*;
use vstd::string::*;
use vstd::utf8::{encode_utf8, is_char_boundary};

verus! {

/// A repository, where it is checked out, and its branches.
#[derive(Debug, PartialEq, Eq, Hash)]
pub struct Repo {
    pub path: String,
    pub origin: String,
    pub master_branch: String,
    pub staging_branch: String,
    pub push_to_master: bool,
}

pub struct RepoView {
    pub path: Seq<char>,
    pub origin: Seq<char>,
    pub master_branch: Seq<char>,
    pub staging_branch: Seq<char>,
    pub push_to_master: bool,
}

impl View for Repo {
    type V = RepoView;

    open spec fn view(&self) -> RepoView {
        RepoView {
            path: self.path@,
            origin: self.origin@,
            master_branch: self.master_branch@,
            staging_branch: self.staging_branch@,
            push_to_master: self.push_to_master,
        }
    }
}

impl Clone for Repo {
    fn clone(&self) -> (r: Repo)
        ensures
            r == *self,
    {
        Repo {
            path: self.path.clone(),
            origin: self.origin.clone(),
            master_branch: self.master_branch.clone(),
            staging_branch: self.staging_branch.clone(),
            push_to_master: self.push_to_master,
        }
    }
}

/// One run of the `git` executable: the directory to run it in (the
/// current one when `None`), its arguments, and whether the work stops
/// when it fails.
pub struct GitCommand {
    pub dir: Option<String>,
    pub args: Vec<String>,
    pub must_succeed: bool,
}

/// The mathematical form of a [`GitCommand`].
pub struct GitCommandView {
    pub dir: Option<Seq<char>>,
    pub args: Seq<Seq<char>>,
    pub must_succeed: bool,
}

impl View for GitCommand {
    type V = GitCommandView;

    open spec fn view(&self) -> GitCommandView {
        GitCommandView {
            dir: match self.dir {
                Some(d) => Some(d@),
                None => None,
            },
            args: self.args@.map_values(|a: String| a@),
            must_succeed: self.must_succeed,
        }
    }
}

pub open spec fn commands_view(cs: Seq<GitCommand>) -> Seq<GitCommandView> {
    cs.map_values(|c: GitCommand| c@)
}

/// A command run in the checkout that must succeed.
pub open spec fn in_repo(repo: RepoView, args: Seq<Seq<char>>) -> GitCommandView {
    GitCommandView { dir: Some(repo.path), args, must_succeed: true }
}

/// Prepare the checkout: create it, point it at its origin and set the
/// committer, when it does not exist yet; else abort any merge left
/// half-done (whether or not there was one).
pub open spec fn spec_setup_commands(repo: RepoView, exists: bool, name: Seq<char>, email: Seq<char>) -> Seq<GitCommandView> {
    if !exists {
        seq![
            GitCommandView { dir: None, args: seq!["init"@, repo.path], must_succeed: true },
            in_repo(repo, seq!["remote"@, "add"@, "origin"@, repo.origin]),
            in_repo(repo, seq!["config"@, "--local"@, "user.name"@, name]),
            in_repo(repo, seq!["config"@, "--local"@, "user.email"@, email]),
        ]
    } else {
        seq![GitCommandView { dir: Some(repo.path), args: seq!["merge"@, "--abort"@], must_succeed: false }]
    }
}

/// Merge a pull request onto the staging branch: fetch master and the pull
/// request, reset the staging branch to master, merge the pull request
/// with the message, and push the staging branch.
pub open spec fn spec_merge_commands(repo: RepoView, pull_commit: Seq<char>, message: Seq<char>, remote: Seq<char>) -> Seq<
    GitCommandView,
> {
    let master = "origin/"@ + repo.master_branch;
    seq![
        in_repo(repo, seq!["fetch"@, "origin"@]),
        in_repo(repo, seq!["fetch"@, "origin"@, repo.master_branch, remote]),
        in_repo(repo, seq!["checkout"@, master]),
        in_repo(repo, seq!["branch"@, "-f"@, repo.staging_branch, master]),
        in_repo(repo, seq!["checkout"@, repo.staging_branch]),
        in_repo(repo, seq!["merge"@, "--no-ff"@, "-m"@, message, pull_commit]),
        in_repo(repo, seq!["push"@, "-f"@, "origin"@, repo.staging_branch]),
    ]
}

/// Move master to the tested merge commit, when the pipeline pushes to
/// master.
pub open spec fn spec_move_commands(repo: RepoView, merge_commit: Seq<char>) -> Seq<GitCommandView> {
    if !repo.push_to_master {
        seq![]
    } else {
        seq![in_repo(repo, seq!["push"@, "-f"@, "origin"@, merge_commit + ":"@ + repo.master_branch])]
    }
}

fn s(x: &str) -> (r: String)
    ensures
        r@ == x@,
{
    String::from_str(x)
}

fn cmd(dir: &String, args: Vec<String>) -> (r: GitCommand)
    ensures
        r@ == (GitCommandView { dir: Some(dir@), args: args@.map_values(|a: String| a@), must_succeed: true }),
{
    GitCommand { dir: Some(dir.clone()), args, must_succeed: true }
}

fn argv(parts: &[&str]) -> (r: Vec<String>)
    ensures
        r@.map_values(|a: String| a@) == keys_view(parts@),
{
    let mut r: Vec<String> = Vec::new();
    let mut i: usize = 0;
    while i < parts.len()
        invariant
            i <= parts@.len(),
            r@.len() == i,
            r@.map_values(|a: String| a@) == keys_view(parts@.take(i as int)),
        decreases parts.len() - i,
    {
        let ghost old_r = r@;
        r.push(String::from_str(parts[i]));
        proof {
            assert(r@ =~= old_r.push(r@[i as int]));
            assert(r@.map_values(|a: String| a@) =~= old_r.map_values(|a: String| a@).push(parts@[i as int]@));
            assert(keys_view(parts@.take(i + 1)) =~= keys_view(parts@.take(i as int)).push(parts@[i as int]@));
        }
        i = i + 1;
    }
    proof {
        assert(parts@.take(i as int) =~= parts@);
    }
    r
}

fn push_cmd(r: &mut Vec<GitCommand>, c: GitCommand)
    ensures
        commands_view(final(r)@) == commands_view(old(r)@).push(c@),
{
    let ghost cv = c@;
    r.push(c);
    proof {
        assert(commands_view(r@) =~= commands_view(old(r)@).push(cv));
    }
}

/// Calls `str::replace` twice, to drop every line feed and then every
/// carriage return.
#[verifier::external_body]
fn drop_line_breaks(text: &str) -> (r: String)
    ensures
        r@ == text@.filter(|c: char| c != '\n' && c != '\r'),
{
    text.replace("\n", "").replace("\r", "")
}

/// The commit that a branch's ref file names: its text without line
/// breaks.
pub fn commit_from_ref(text: &str) -> (r: Commit)
    ensures
        r@ == text@.filter(|c: char| c != '\n' && c != '\r'),
{
    Commit::from(drop_line_breaks(text))
}

/// The git worker: its executable, the committer it merges as, and each
/// pipeline's checkout.
pub struct Worker {
    pub executable: String,
    pub name: String,
    pub email: String,
    pub pipelines: StaticGitPipelinesConfig,
}

impl Worker {
    /// The commands that prepare a checkout; see [`spec_setup_commands`].
    pub fn setup_commands(&self, repo: &Repo, exists: bool) -> (r: Vec<GitCommand>)
        ensures
            commands_view(r@) == spec_setup_commands(repo@, exists, self.name@, self.email@),
    {
        let mut r: Vec<GitCommand> = Vec::new();
        if !exists {
            let a1: &[&str] = &["init", repo.path.as_str()];
            proof {
                assert(keys_view(a1@) =~= seq!["init"@, repo.path@]);
            }
            let a = argv(a1);
            push_cmd(&mut r, GitCommand { dir: None, args: a, must_succeed: true });
            let a2: &[&str] = &["remote", "add", "origin", repo.origin.as_str()];
            proof {
                assert(keys_view(a2@) =~= seq!["remote"@, "add"@, "origin"@, repo.origin@]);
            }
            push_cmd(&mut r, cmd(&repo.path, argv(a2)));
            let a3: &[&str] = &["config", "--local", "user.name", self.name.as_str()];
            proof {
                assert(keys_view(a3@) =~= seq!["config"@, "--local"@, "user.name"@, self.name@]);
            }
            push_cmd(&mut r, cmd(&repo.path, argv(a3)));
            let a4: &[&str] = &["config", "--local", "user.email", self.email.as_str()];
            proof {
                assert(keys_view(a4@) =~= seq!["config"@, "--local"@, "user.email"@, self.email@]);
            }
            push_cmd(&mut r, cmd(&repo.path, argv(a4)));
        } else {
            let a5: &[&str] = &["merge", "--abort"];
            proof {
                assert(keys_view(a5@) =~= seq!["merge"@, "--abort"@]);
            }
            let a = argv(a5);
            push_cmd(&mut r, GitCommand { dir: Some(repo.path.clone()), args: a, must_succeed: false });
        }
        proof {
            assert(commands_view(r@) =~~= spec_setup_commands(repo@, exists, self.name@, self.email@));
        }
        r
    }

    /// The commands that merge a pull request onto the staging branch; see
    /// [`spec_merge_commands`].
    pub fn merge_commands(repo: &Repo, pull_commit: &Commit, message: &str, remote: &str) -> (r: Vec<GitCommand>)
        ensures
            commands_view(r@) == spec_merge_commands(repo@, pull_commit@, message@, remote@),
    {
        let mut master = s("origin/");
        master.append(repo.master_branch.as_str());
        let m = master.as_str();
        let p = &repo.path;
        let mut r: Vec<GitCommand> = Vec::new();
        let a6: &[&str] = &["fetch", "origin"];
        proof {
            assert(keys_view(a6@) =~= seq!["fetch"@, "origin"@]);
        }
        push_cmd(&mut r, cmd(p, argv(a6)));
        let a7: &[&str] = &["fetch", "origin", repo.master_branch.as_str(), remote];
        proof {
            assert(keys_view(a7@) =~= seq!["fetch"@, "origin"@, repo.master_branch@, remote@]);
        }
        push_cmd(&mut r, cmd(p, argv(a7)));
        let a8: &[&str] = &["checkout", m];
        proof {
            assert(keys_view(a8@) =~= seq!["checkout"@, m@]);
        }
        push_cmd(&mut r, cmd(p, argv(a8)));
        let a9: &[&str] = &["branch", "-f", repo.staging_branch.as_str(), m];
        proof {
            assert(keys_view(a9@) =~= seq!["branch"@, "-f"@, repo.staging_branch@, m@]);
        }
        push_cmd(&mut r, cmd(p, argv(a9)));
        let a10: &[&str] = &["checkout", repo.staging_branch.as_str()];
        proof {
            assert(keys_view(a10@) =~= seq!["checkout"@, repo.staging_branch@]);
        }
        push_cmd(&mut r, cmd(p, argv(a10)));
        let a11: &[&str] = &["merge", "--no-ff", "-m", message, pull_commit.as_str()];
        proof {
            assert(keys_view(a11@) =~= seq!["merge"@, "--no-ff"@, "-m"@, message@, pull_commit@]);
        }
        push_cmd(&mut r, cmd(p, argv(a11)));
        let a12: &[&str] = &["push", "-f", "origin", repo.staging_branch.as_str()];
        proof {
            assert(keys_view(a12@) =~= seq!["push"@, "-f"@, "origin"@, repo.staging_branch@]);
        }
        push_cmd(&mut r, cmd(p, argv(a12)));
        proof {
            assert(commands_view(r@) =~~= spec_merge_commands(repo@, pull_commit@, message@, remote@));
        }
        r
    }

    /// The commands that move master to a tested merge commit; see
    /// [`spec_move_commands`].
    pub fn move_commands(repo: &Repo, merge_commit: &Commit) -> (r: Vec<GitCommand>)
        ensures
            commands_view(r@) == spec_move_commands(repo@, merge_commit@),
    {
        let mut r: Vec<GitCommand> = Vec::new();
        if repo.push_to_master {
            let mut refspec = s(merge_commit.as_str());
            refspec.append(":");
            refspec.append(repo.master_branch.as_str());
            let parts: &[&str] = &["push", "-f", "origin", refspec.as_str()];
            proof {
                assert(keys_view(parts@) =~= seq!["push"@, "-f"@, "origin"@, refspec@]);
            }
            push_cmd(&mut r, cmd(&repo.path, argv(parts)));
        }
        proof {
            assert(commands_view(r@) =~~= spec_move_commands(repo@, merge_commit@));
        }
        r
    }

    /// The checkout of a pipeline; `None` for an unknown pipeline, whose
    /// messages are dropped.
    pub fn repo_for(&self, pipeline_id: PipelineId) -> (r: Option<Repo>)
        ensures
            match r {
                Some(repo) => assoc_get(self.pipelines@, pipeline_id) == Some(repo@),
                None => assoc_get(self.pipelines@, pipeline_id) is None,
            },
    {
        self.pipelines.repo_by_pipeline(pipeline_id)
    }
}

/// What a merge onto the staging branch reports: the merge commit, or a
/// failure.
pub fn merged(pipeline_id: PipelineId, pull_commit: Commit, merge_commit: Option<Commit>) -> (r: Event)
    ensures
        match merge_commit {
            Some(m) => r matches Event::MergedToStaging(p, c, mc) && p == pipeline_id && c@ == pull_commit@ && mc@ == m@,
            None => r matches Event::FailedMergeToStaging(p, c) && p == pipeline_id && c@ == pull_commit@,
        },
{
    match merge_commit {
        Some(m) => Event::MergedToStaging(pipeline_id, pull_commit, m),
        None => Event::FailedMergeToStaging(pipeline_id, pull_commit),
    }
}

/// What a move of master reports.
pub fn moved(pipeline_id: PipelineId, merge_commit: Commit, ok: bool) -> (r: Event)
    ensures
        ok ==> (r matches Event::MovedToMaster(p, c) && p == pipeline_id && c@ == merge_commit@),
        !ok ==> (r matches Event::FailedMoveToMaster(p, c) && p == pipeline_id && c@ == merge_commit@),
{
    if ok {
        Event::MovedToMaster(pipeline_id, merge_commit)
    } else {
        Event::FailedMoveToMaster(pipeline_id, merge_commit)
    }
}

/// A short form of a commit, for messages.
pub trait ToShortString {
    fn to_short_string(&self) -> String;
}

impl ToShortString for Commit {
    /// The first five bytes of the commit's text; all of it when it is
    /// shorter, or when the fifth byte falls inside a character (which no
    /// commit hash does).
    fn to_short_string(&self) -> (r: String)
        ensures
            is_char_boundary(encode_utf8(self@), 5) ==> encode_utf8(r@) == encode_utf8(self@).subrange(0, 5),
            !is_char_boundary(encode_utf8(self@), 5) ==> r@ == self@,
    {
        let text = self.0.as_str();
        if !text.is_char_boundary(5) {
            return self.0.clone();
        }
        let (head, _) = text.split_at(5);
        head.to_owned()
    }
}


/// A merge lands on the branch that is pushed: every command runs in the
/// checkout; the one before last merges the pull request's commit; the
/// last pushes the staging branch; and the branch checked out when the
/// merge is made, by the last `checkout` before it, is the staging branch,
/// which was first reset to the origin's master.
pub proof fn lemma_merge_lands_on_pushed_branch(repo: RepoView, pull_commit: Seq<char>, message: Seq<char>, remote: Seq<char>)
    ensures
        ({
            let cs = spec_merge_commands(repo, pull_commit, message, remote);
            let m = cs.len() - 2;
            &&& cs.len() >= 2
            &&& forall|i: int| 0 <= i < cs.len() ==> (#[trigger] cs[i]).dir == Some(repo.path)
            &&& cs[m].args.len() > 0 && cs[m].args[0] == "merge"@ && cs[m].args.last() == pull_commit
            &&& cs.last().args == seq!["push"@, "-f"@, "origin"@, repo.staging_branch]
            &&& exists|i: int| 0 <= i < m && (#[trigger] cs[i]).args.len() > 0 && cs[i].args[0] == "checkout"@
            &&& forall|i: int|
                0 <= i < m && (#[trigger] cs[i]).args.len() > 0 && cs[i].args[0] == "checkout"@ && (forall|j: int|
                    i < j < m ==> (#[trigger] cs[j]).args.len() == 0 || cs[j].args[0] != "checkout"@) ==> cs[i].args
                    == seq!["checkout"@, repo.staging_branch]
            &&& exists|i: int|
                0 <= i < m && (#[trigger] cs[i]).args == seq![
                    "branch"@,
                    "-f"@,
                    repo.staging_branch,
                    "origin/"@ + repo.master_branch,
                ]
        }),
{
    let cs = spec_merge_commands(repo, pull_commit, message, remote);
    reveal_strlit("checkout");
    reveal_strlit("fetch");
    reveal_strlit("branch");
    reveal_strlit("merge");
    assert("fetch"@ != "checkout"@) by {
        assert("fetch"@[0] != "checkout"@[0]);
    }
    assert("branch"@ != "checkout"@) by {
        assert("branch"@[0] != "checkout"@[0]);
    }
    assert("merge"@ != "checkout"@) by {
        assert("merge"@[0] != "checkout"@[0]);
    }
    assert(cs[4].args.len() > 0 && cs[4].args[0] == "checkout"@);
    assert(cs[3].args == seq!["branch"@, "-f"@, repo.staging_branch, "origin/"@ + repo.master_branch]);
    assert forall|i: int|
        0 <= i < 5 && (#[trigger] cs[i]).args.len() > 0 && cs[i].args[0] == "checkout"@ && (forall|j: int|
            i < j < 5 ==> (#[trigger] cs[j]).args.len() == 0 || cs[j].args[0] != "checkout"@) implies cs[i].args
            == seq!["checkout"@, repo.staging_branch] by {
        if i < 4 {
            assert(cs[4].args[0] == "checkout"@);
            assert(false);
        }
    }
}


/// Master is moved only by a pipeline that pushes to master, and then by
/// one push, from the checkout, of the tested merge commit onto the master
/// branch.
pub proof fn lemma_move_pushes_merge_to_master(repo: RepoView, merge_commit: Seq<char>)
    ensures
        !repo.push_to_master ==> spec_move_commands(repo, merge_commit).len() == 0,
        repo.push_to_master ==> spec_move_commands(repo, merge_commit) == seq![
            GitCommandView {
                dir: Some(repo.path),
                args: seq!["push"@, "-f"@, "origin"@, merge_commit + ":"@ + repo.master_branch],
                must_succeed: true,
            },
        ],
{
}

} // verus!
