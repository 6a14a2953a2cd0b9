//! Configuration from the environment: each setting is a variable (the
//! program reads them with the prefix `AELITA_`), and the projects are
//! kept in a database.
//!
//! The environment is given as its pairs of names and values; opening the
//! databases is left to the caller.

use crate::db::{Builder, BuilderError, BuilderView};
use crate::util::str_equal;
use vstd::prelude::*;
use vstd::string::*;

verus! {

/// A variable of the environment that the configuration reads.
#[derive(Clone, Copy, Debug, PartialEq, Eq, Structural)]
pub enum GithubBuilderKey {
    UiType,
    CiType,
    VcsType,
    PipelineDb,
    ProjectDb,
    UiGithubDb,
    UiGithubListen,
    UiGithubHost,
    UiGithubToken,
    UiGithubUser,
    UiGithubSecret,
    CiJenkinsListen,
    CiJenkinsHost,
    CiJenkinsUser,
    CiJenkinsToken,
    CiGithubListen,
    CiGithubSecret,
    VcsGithubHost,
    VcsGithubToken,
    VcsGitExecutable,
    VcsGitName,
    VcsGitEmail,
    ViewListen,
    ViewSecret,
}

/// The name of a variable, without the prefix.
#[verifier::opaque]
pub open spec fn spec_key_name(k: GithubBuilderKey) -> Seq<char> {
    match k {
        GithubBuilderKey::UiType => "UI_TYPE"@,
        GithubBuilderKey::CiType => "CI_TYPE"@,
        GithubBuilderKey::VcsType => "VCS_TYPE"@,
        GithubBuilderKey::PipelineDb => "PIPELINE_DB"@,
        GithubBuilderKey::ProjectDb => "PROJECT_DB"@,
        GithubBuilderKey::UiGithubDb => "UI_GITHUB_DB"@,
        GithubBuilderKey::UiGithubListen => "UI_GITHUB_LISTEN"@,
        GithubBuilderKey::UiGithubHost => "UI_GITHUB_HOST"@,
        GithubBuilderKey::UiGithubToken => "UI_GITHUB_TOKEN"@,
        GithubBuilderKey::UiGithubUser => "UI_GITHUB_USER"@,
        GithubBuilderKey::UiGithubSecret => "UI_GITHUB_SECRET"@,
        GithubBuilderKey::CiJenkinsListen => "CI_JENKINS_LISTEN"@,
        GithubBuilderKey::CiJenkinsHost => "CI_JENKINS_HOST"@,
        GithubBuilderKey::CiJenkinsUser => "CI_JENKINS_USER"@,
        GithubBuilderKey::CiJenkinsToken => "CI_JENKINS_TOKEN"@,
        GithubBuilderKey::CiGithubListen => "CI_GITHUB_LISTEN"@,
        GithubBuilderKey::CiGithubSecret => "CI_GITHUB_SECRET"@,
        GithubBuilderKey::VcsGithubHost => "VCS_GITHUB_HOST"@,
        GithubBuilderKey::VcsGithubToken => "VCS_GITHUB_TOKEN"@,
        GithubBuilderKey::VcsGitExecutable => "VCS_GIT_EXECUTABLE"@,
        GithubBuilderKey::VcsGitName => "VCS_GIT_NAME"@,
        GithubBuilderKey::VcsGitEmail => "VCS_GIT_EMAIL"@,
        GithubBuilderKey::ViewListen => "VIEW_LISTEN"@,
        GithubBuilderKey::ViewSecret => "VIEW_SECRET"@,
    }
}

pub fn key_name(k: GithubBuilderKey) -> (r: &'static str)
    ensures
        r@ == spec_key_name(k),
{
    reveal(spec_key_name);
    match k {
        GithubBuilderKey::UiType => "UI_TYPE",
        GithubBuilderKey::CiType => "CI_TYPE",
        GithubBuilderKey::VcsType => "VCS_TYPE",
        GithubBuilderKey::PipelineDb => "PIPELINE_DB",
        GithubBuilderKey::ProjectDb => "PROJECT_DB",
        GithubBuilderKey::UiGithubDb => "UI_GITHUB_DB",
        GithubBuilderKey::UiGithubListen => "UI_GITHUB_LISTEN",
        GithubBuilderKey::UiGithubHost => "UI_GITHUB_HOST",
        GithubBuilderKey::UiGithubToken => "UI_GITHUB_TOKEN",
        GithubBuilderKey::UiGithubUser => "UI_GITHUB_USER",
        GithubBuilderKey::UiGithubSecret => "UI_GITHUB_SECRET",
        GithubBuilderKey::CiJenkinsListen => "CI_JENKINS_LISTEN",
        GithubBuilderKey::CiJenkinsHost => "CI_JENKINS_HOST",
        GithubBuilderKey::CiJenkinsUser => "CI_JENKINS_USER",
        GithubBuilderKey::CiJenkinsToken => "CI_JENKINS_TOKEN",
        GithubBuilderKey::CiGithubListen => "CI_GITHUB_LISTEN",
        GithubBuilderKey::CiGithubSecret => "CI_GITHUB_SECRET",
        GithubBuilderKey::VcsGithubHost => "VCS_GITHUB_HOST",
        GithubBuilderKey::VcsGithubToken => "VCS_GITHUB_TOKEN",
        GithubBuilderKey::VcsGitExecutable => "VCS_GIT_EXECUTABLE",
        GithubBuilderKey::VcsGitName => "VCS_GIT_NAME",
        GithubBuilderKey::VcsGitEmail => "VCS_GIT_EMAIL",
        GithubBuilderKey::ViewListen => "VIEW_LISTEN",
        GithubBuilderKey::ViewSecret => "VIEW_SECRET",
    }
}

/// Why the environment does not describe a working set of workers.
#[derive(Debug, PartialEq, Eq)]
pub enum EnvError {
    /// The user interface is not GitHub's.
    NotGithub,
    /// The pipelines' database is not a valid description.
    DbConnect(BuilderError),
    /// The projects' database is not a valid description.
    PjConnect(BuilderError),
    /// GitHub's database is not a valid description.
    GhConnect(BuilderError),
    MissingKey(GithubBuilderKey),
    InvalidKey(GithubBuilderKey),
}

/// The value of a variable: the first pair with its name.
#[verifier::opaque]
pub open spec fn env_value(env: Seq<(Seq<char>, Seq<char>)>, k: GithubBuilderKey) -> Option<Seq<char>> {
    crate::config::toml::assoc_get(env, spec_key_name(k))
}

pub open spec fn env_view(env: Seq<(String, String)>) -> Seq<(Seq<char>, Seq<char>)> {
    env.map_values(|p: (String, String)| (p.0@, p.1@))
}

/// A variable that must be set.
pub open spec fn need(env: Seq<(Seq<char>, Seq<char>)>, k: GithubBuilderKey) -> Result<Seq<char>, EnvError> {
    match env_value(env, k) {
        Some(v) => Ok(v),
        None => Err(EnvError::MissingKey(k)),
    }
}

fn get(env: &Vec<(String, String)>, k: GithubBuilderKey) -> (r: Result<String, EnvError>)
    ensures
        match r {
            Ok(v) => need(env_view(env@), k) == Ok::<_, EnvError>(v@),
            Err(e) => need(env_view(env@), k) == Err::<Seq<char>, _>(e),
        },
{
    reveal(env_value);
    let name = key_name(k);
    let ghost ev = env_view(env@);
    let mut i: usize = 0;
    while i < env.len()
        invariant
            i <= env@.len(),
            ev == env_view(env@),
            name@ == spec_key_name(k),
            forall|j: int| 0 <= j < i ==> ev[j].0 != name@,
        decreases env.len() - i,
    {
        if str_equal(env[i].0.as_str(), name) {
            proof {
                crate::config::toml::lemma_first_key_found(ev, name@, i as int);
                assert(ev[i as int] == (env@[i as int].0@, env@[i as int].1@));
            }
            let v = env[i].1.clone();
            assert(v@ == env@[i as int].1@);
            proof {
                reveal(env_value);
            }
            return Ok(v);
        }
        i = i + 1;
    }
    proof {
        crate::config::toml::lemma_first_key_absent(ev, name@);
    }
    Err(EnvError::MissingKey(k))
}

/// The CI worker that the environment sets up.
pub enum CiPlan {
    /// Its listening address, its host, and the user and token to log in.
    Jenkins(String, String, String, String),
    /// Its listening address and its webhook secret.
    GithubStatus(String, String),
}

pub enum CiPlanView {
    Jenkins(Seq<char>, Seq<char>, Seq<char>, Seq<char>),
    GithubStatus(Seq<char>, Seq<char>),
}

impl View for CiPlan {
    type V = CiPlanView;

    open spec fn view(&self) -> CiPlanView {
        match self {
            CiPlan::Jenkins(a, b, c, d) => CiPlanView::Jenkins(a@, b@, c@, d@),
            CiPlan::GithubStatus(a, b) => CiPlanView::GithubStatus(a@, b@),
        }
    }
}

/// The VCS worker that the environment sets up.
pub enum VcsPlan {
    /// The git executable, and the committer's name and email.
    Git(String, String, String),
    /// GitHub's API host and a token.
    Github(String, String),
}

pub enum VcsPlanView {
    Git(Seq<char>, Seq<char>, Seq<char>),
    Github(Seq<char>, Seq<char>),
}

impl View for VcsPlan {
    type V = VcsPlanView;

    open spec fn view(&self) -> VcsPlanView {
        match self {
            VcsPlan::Git(a, b, c) => VcsPlanView::Git(a@, b@, c@),
            VcsPlan::Github(a, b) => VcsPlanView::Github(a@, b@),
        }
    }
}

/// The GitHub UI worker's settings: its database, listening address,
/// API host, token, user and webhook secret.
pub struct UiPlan {
    pub db: Builder,
    pub listen: String,
    pub host: String,
    pub token: String,
    pub user: String,
    pub secret: String,
}

pub struct UiPlanView {
    pub db: BuilderView,
    pub listen: Seq<char>,
    pub host: Seq<char>,
    pub token: Seq<char>,
    pub user: Seq<char>,
    pub secret: Seq<char>,
}

impl View for UiPlan {
    type V = UiPlanView;

    open spec fn view(&self) -> UiPlanView {
        UiPlanView {
            db: self.db@,
            listen: self.listen@,
            host: self.host@,
            token: self.token@,
            user: self.user@,
            secret: self.secret@,
        }
    }
}

/// Everything the environment sets up: the pipelines' and the projects'
/// databases, one CI, one UI and one VCS worker, and the view (its
/// listening address and secret, without authentication).
pub struct EnvPlan {
    pub db: Builder,
    pub projects: Builder,
    pub ci: CiPlan,
    pub ui: UiPlan,
    pub vcs: VcsPlan,
    pub view_listen: String,
    pub view_secret: String,
}

pub struct EnvPlanView {
    pub db: BuilderView,
    pub projects: BuilderView,
    pub ci: CiPlanView,
    pub ui: UiPlanView,
    pub vcs: VcsPlanView,
    pub view_listen: Seq<char>,
    pub view_secret: Seq<char>,
}

impl View for EnvPlan {
    type V = EnvPlanView;

    open spec fn view(&self) -> EnvPlanView {
        EnvPlanView {
            db: self.db@,
            projects: self.projects@,
            ci: self.ci@,
            ui: self.ui@,
            vcs: self.vcs@,
            view_listen: self.view_listen@,
            view_secret: self.view_secret@,
        }
    }
}

/// The CI worker: `CI_TYPE` is `jenkins` or `github_status`, and each
/// needs its own variables.
pub open spec fn spec_ci(env: Seq<(Seq<char>, Seq<char>)>) -> Result<CiPlanView, EnvError> {
    match need(env, GithubBuilderKey::CiType) {
        Err(e) => Err(e),
        Ok(t) => if t == "jenkins"@ {
            match need(env, GithubBuilderKey::CiJenkinsListen) {
                Err(e) => Err(e),
                Ok(l) => match need(env, GithubBuilderKey::CiJenkinsHost) {
                    Err(e) => Err(e),
                    Ok(h) => match need(env, GithubBuilderKey::CiJenkinsUser) {
                        Err(e) => Err(e),
                        Ok(u) => match need(env, GithubBuilderKey::CiJenkinsToken) {
                            Err(e) => Err(e),
                            Ok(t) => Ok(CiPlanView::Jenkins(l, h, u, t)),
                        },
                    },
                },
            }
        } else if t == "github_status"@ {
            match need(env, GithubBuilderKey::CiGithubListen) {
                Err(e) => Err(e),
                Ok(l) => match need(env, GithubBuilderKey::CiGithubSecret) {
                    Err(e) => Err(e),
                    Ok(s) => Ok(CiPlanView::GithubStatus(l, s)),
                },
            }
        } else {
            Err(EnvError::InvalidKey(GithubBuilderKey::CiType))
        },
    }
}

/// The GitHub UI worker.
pub open spec fn spec_ui(env: Seq<(Seq<char>, Seq<char>)>) -> Result<UiPlanView, EnvError> {
    match need(env, GithubBuilderKey::UiGithubDb) {
        Err(e) => Err(e),
        Ok(d) => match crate::db::spec_builder_from(d) {
            Err(e) => Err(EnvError::GhConnect(e)),
            Ok(db) => match need(env, GithubBuilderKey::UiGithubListen) {
                Err(e) => Err(e),
                Ok(listen) => match need(env, GithubBuilderKey::UiGithubHost) {
                    Err(e) => Err(e),
                    Ok(host) => match need(env, GithubBuilderKey::UiGithubToken) {
                        Err(e) => Err(e),
                        Ok(token) => match need(env, GithubBuilderKey::UiGithubUser) {
                            Err(e) => Err(e),
                            Ok(user) => match need(env, GithubBuilderKey::UiGithubSecret) {
                                Err(e) => Err(e),
                                Ok(secret) => Ok(UiPlanView { db, listen, host, token, user, secret }),
                            },
                        },
                    },
                },
            },
        },
    }
}

/// The VCS worker: `VCS_TYPE` is `git` or `github`, and each needs its own
/// variables.
pub open spec fn spec_vcs(env: Seq<(Seq<char>, Seq<char>)>) -> Result<VcsPlanView, EnvError> {
    match need(env, GithubBuilderKey::VcsType) {
        Err(e) => Err(e),
        Ok(t) => if t == "git"@ {
            match need(env, GithubBuilderKey::VcsGitExecutable) {
                Err(e) => Err(e),
                Ok(x) => match need(env, GithubBuilderKey::VcsGitName) {
                    Err(e) => Err(e),
                    Ok(n) => match need(env, GithubBuilderKey::VcsGitEmail) {
                        Err(e) => Err(e),
                        Ok(m) => Ok(VcsPlanView::Git(x, n, m)),
                    },
                },
            }
        } else if t == "github"@ {
            match need(env, GithubBuilderKey::VcsGithubHost) {
                Err(e) => Err(e),
                Ok(h) => match need(env, GithubBuilderKey::VcsGithubToken) {
                    Err(e) => Err(e),
                    Ok(k) => Ok(VcsPlanView::Github(h, k)),
                },
            }
        } else {
            Err(EnvError::InvalidKey(GithubBuilderKey::VcsType))
        },
    }
}

/// Everything, in the order the variables are read: `UI_TYPE` must be
/// `github`; then the pipelines' and the projects' databases; then the CI,
/// UI, VCS workers and the view.
pub open spec fn spec_plan(env: Seq<(Seq<char>, Seq<char>)>) -> Result<EnvPlanView, EnvError> {
    match need(env, GithubBuilderKey::UiType) {
        Err(e) => Err(e),
        Ok(t) => if t != "github"@ {
            Err(EnvError::NotGithub)
        } else {
            match need(env, GithubBuilderKey::PipelineDb) {
                Err(e) => Err(e),
                Ok(d) => match crate::db::spec_builder_from(d) {
                    Err(e) => Err(EnvError::DbConnect(e)),
                    Ok(db) => match need(env, GithubBuilderKey::ProjectDb) {
                        Err(e) => Err(e),
                        Ok(p) => match crate::db::spec_builder_from(p) {
                            Err(e) => Err(EnvError::PjConnect(e)),
                            Ok(projects) => match spec_ci(env) {
                                Err(e) => Err(e),
                                Ok(ci) => match spec_ui(env) {
                                    Err(e) => Err(e),
                                    Ok(ui) => match spec_vcs(env) {
                                        Err(e) => Err(e),
                                        Ok(vcs) => match need(env, GithubBuilderKey::ViewListen) {
                                            Err(e) => Err(e),
                                            Ok(view_listen) => match need(env, GithubBuilderKey::ViewSecret) {
                                                Err(e) => Err(e),
                                                Ok(view_secret) => Ok(
                                                    EnvPlanView { db, projects, ci, ui, vcs, view_listen, view_secret },
                                                ),
                                            },
                                        },
                                    },
                                },
                            },
                        },
                    },
                },
            }
        },
    }
}

fn setup_ci(env: &Vec<(String, String)>) -> (r: Result<CiPlan, EnvError>)
    ensures
        match r {
            Ok(c) => spec_ci(env_view(env@)) == Ok::<_, EnvError>(c@),
            Err(e) => spec_ci(env_view(env@)) == Err::<CiPlanView, _>(e),
        },
{
    let t = match get(env, GithubBuilderKey::CiType) {
        Ok(x) => x,
        Err(e) => return Err(e),
    };
    if str_equal(t.as_str(), "jenkins") {
        let l = match get(env, GithubBuilderKey::CiJenkinsListen) {
            Ok(x) => x,
            Err(e) => return Err(e),
        };
        let h = match get(env, GithubBuilderKey::CiJenkinsHost) {
            Ok(x) => x,
            Err(e) => return Err(e),
        };
        let u = match get(env, GithubBuilderKey::CiJenkinsUser) {
            Ok(x) => x,
            Err(e) => return Err(e),
        };
        let k = match get(env, GithubBuilderKey::CiJenkinsToken) {
            Ok(x) => x,
            Err(e) => return Err(e),
        };
        Ok(CiPlan::Jenkins(l, h, u, k))
    } else if str_equal(t.as_str(), "github_status") {
        let l = match get(env, GithubBuilderKey::CiGithubListen) {
            Ok(x) => x,
            Err(e) => return Err(e),
        };
        let s = match get(env, GithubBuilderKey::CiGithubSecret) {
            Ok(x) => x,
            Err(e) => return Err(e),
        };
        Ok(CiPlan::GithubStatus(l, s))
    } else {
        Err(EnvError::InvalidKey(GithubBuilderKey::CiType))
    }
}

fn setup_ui(env: &Vec<(String, String)>) -> (r: Result<UiPlan, EnvError>)
    ensures
        match r {
            Ok(u) => spec_ui(env_view(env@)) == Ok::<_, EnvError>(u@),
            Err(e) => spec_ui(env_view(env@)) == Err::<UiPlanView, _>(e),
        },
{
    let d = match get(env, GithubBuilderKey::UiGithubDb) {
        Ok(x) => x,
        Err(e) => return Err(e),
    };
    let db = match Builder::from_str(d.as_str()) {
        Ok(b) => b,
        Err(e) => return Err(EnvError::GhConnect(e)),
    };
    let listen = match get(env, GithubBuilderKey::UiGithubListen) {
        Ok(x) => x,
        Err(e) => return Err(e),
    };
    let host = match get(env, GithubBuilderKey::UiGithubHost) {
        Ok(x) => x,
        Err(e) => return Err(e),
    };
    let token = match get(env, GithubBuilderKey::UiGithubToken) {
        Ok(x) => x,
        Err(e) => return Err(e),
    };
    let user = match get(env, GithubBuilderKey::UiGithubUser) {
        Ok(x) => x,
        Err(e) => return Err(e),
    };
    let secret = match get(env, GithubBuilderKey::UiGithubSecret) {
        Ok(x) => x,
        Err(e) => return Err(e),
    };
    Ok(UiPlan { db, listen, host, token, user, secret })
}

fn setup_vcs(env: &Vec<(String, String)>) -> (r: Result<VcsPlan, EnvError>)
    ensures
        match r {
            Ok(v) => spec_vcs(env_view(env@)) == Ok::<_, EnvError>(v@),
            Err(e) => spec_vcs(env_view(env@)) == Err::<VcsPlanView, _>(e),
        },
{
    let t = match get(env, GithubBuilderKey::VcsType) {
        Ok(x) => x,
        Err(e) => return Err(e),
    };
    if str_equal(t.as_str(), "git") {
        let x = match get(env, GithubBuilderKey::VcsGitExecutable) {
            Ok(x) => x,
            Err(e) => return Err(e),
        };
        let n = match get(env, GithubBuilderKey::VcsGitName) {
            Ok(x) => x,
            Err(e) => return Err(e),
        };
        let m = match get(env, GithubBuilderKey::VcsGitEmail) {
            Ok(x) => x,
            Err(e) => return Err(e),
        };
        Ok(VcsPlan::Git(x, n, m))
    } else if str_equal(t.as_str(), "github") {
        let h = match get(env, GithubBuilderKey::VcsGithubHost) {
            Ok(x) => x,
            Err(e) => return Err(e),
        };
        let k = match get(env, GithubBuilderKey::VcsGithubToken) {
            Ok(x) => x,
            Err(e) => return Err(e),
        };
        Ok(VcsPlan::Github(h, k))
    } else {
        Err(EnvError::InvalidKey(GithubBuilderKey::VcsType))
    }
}

/// Read every setting from the environment; see [`spec_plan`].
pub fn build_from_env(env: &Vec<(String, String)>) -> (r: Result<EnvPlan, EnvError>)
    ensures
        match r {
            Ok(p) => spec_plan(env_view(env@)) == Ok::<_, EnvError>(p@),
            Err(e) => spec_plan(env_view(env@)) == Err::<EnvPlanView, _>(e),
        },
{
    let t = match get(env, GithubBuilderKey::UiType) {
        Ok(x) => x,
        Err(e) => return Err(e),
    };
    if !str_equal(t.as_str(), "github") {
        return Err(EnvError::NotGithub);
    }
    let d = match get(env, GithubBuilderKey::PipelineDb) {
        Ok(x) => x,
        Err(e) => return Err(e),
    };
    let db = match Builder::from_str(d.as_str()) {
        Ok(b) => b,
        Err(e) => return Err(EnvError::DbConnect(e)),
    };
    let p = match get(env, GithubBuilderKey::ProjectDb) {
        Ok(x) => x,
        Err(e) => return Err(e),
    };
    let projects = match Builder::from_str(p.as_str()) {
        Ok(b) => b,
        Err(e) => return Err(EnvError::PjConnect(e)),
    };
    let ci = match setup_ci(env) {
        Ok(x) => x,
        Err(e) => return Err(e),
    };
    let ui = match setup_ui(env) {
        Ok(x) => x,
        Err(e) => return Err(e),
    };
    let vcs = match setup_vcs(env) {
        Ok(x) => x,
        Err(e) => return Err(e),
    };
    let view_listen = match get(env, GithubBuilderKey::ViewListen) {
        Ok(x) => x,
        Err(e) => return Err(e),
    };
    let view_secret = match get(env, GithubBuilderKey::ViewSecret) {
        Ok(x) => x,
        Err(e) => return Err(e),
    };
    Ok(EnvPlan { db, projects, ci, ui, vcs, view_listen, view_secret })
}

} // verus!
