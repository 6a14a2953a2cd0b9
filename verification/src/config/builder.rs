//! Working out, from a parsed configuration file, every worker's settings
//! and every pipeline.
//!
//! The `[projects]` table is read in two passes. The first gives each
//! project a pipeline (and a second one when the project has a `try`
//! section), numbers the CI jobs, and records the project's settings in the
//! table of each worker that it uses. The second pass builds each
//! pipeline's description out of the workers that exist.

use crate::ci::{CiId, github_status, jenkins};
use crate::config::{PipelineConfig, ConfigValue, keys_view, value_get, value_lookup};
use crate::config::toml::{
    CiPipelines, CiType, GithubArg, GithubGitArg, GithubGitProjectArg, GithubGitSetup, GithubProjectArg, GithubSetup,
    GithubStatusArg, GithubStatusProjectArg, GithubStatusSetup, GitArg, GitProjectArg, GitSetup, JenkinsArg,
    JenkinsProjectArg, JenkinsSetup, PipelineConfigView, ProjectArg, SetupError, StaticGitPipelinesConfig,
    StaticGithubGitPipelinesConfig, StaticGithubProjectsConfig, StaticGithubStatusPipelinesConfig,
    StaticJenkinsPipelinesConfig, StaticPipelinesConfig, StaticViewPipelinesConfig, Ty, ViewArg, ViewProjectArg,
    ViewSetup, assoc_insert, assoc_insert_absent, ci_bound, ci_entries, jenkins_entries, spec_git_repo,
    spec_github_git_repo, spec_github_project, spec_has_try, spec_jenkins_array, spec_jenkins_jobs,
    spec_status_array, spec_status_contexts, status_entries, status_repo_fields, pipelines_view,
};
use crate::pipeline::PipelineId;
use crate::ui::github;
use crate::vcs::git;
use crate::vcs::github as github_git;
use vstd::prelude::*;

verus! {

/// Why a configuration does not describe a working set of pipelines.
#[derive(Debug, PartialEq, Eq)]
pub enum GithubBuilderError {
    NoConfig,
    NoProjects,
    NoConfigGithub,
    Dangling,
    Github(SetupError<GithubArg>),
    GithubStatus(SetupError<GithubStatusArg>),
    Jenkins(SetupError<JenkinsArg>),
    Git(SetupError<GitArg>),
    GithubGit(SetupError<GithubGitArg>),
    View(SetupError<ViewArg>),
    Project(SetupError<ProjectArg>),
    GithubProject(SetupError<GithubProjectArg>),
    GithubStatusProject(SetupError<GithubStatusProjectArg>),
    JenkinsProject(SetupError<JenkinsProjectArg>),
    GitProject(SetupError<GitProjectArg>),
    GithubGitProject(SetupError<GithubGitProjectArg>),
    ViewProject(SetupError<ViewProjectArg>),
    /// The configuration file could not be opened.
    OpenFile,
    /// The configuration file could not be read.
    ReadFile,
    /// The configuration is not TOML.
    Parse,
    /// The configuration has more projects, or more CI jobs, than can be
    /// numbered; see [`within_limits`].
    TooManyProjects,
}

// ----- The first pass: the workers' tables of projects.

/// What the first pass has gathered so far.
pub struct ProjectsView {
    pub github: Seq<(github::RepoView, github::RepoPipelines)>,
    pub status: Seq<(CiId, github_status::RepoView)>,
    pub jenkins: Seq<(CiId, jenkins::JobView)>,
    pub git: Seq<(PipelineId, git::RepoView)>,
    pub github_git: Seq<(PipelineId, github_git::RepoView)>,
    pub view: Seq<(Seq<char>, PipelineId)>,
    pub pipeline_id: int,
    pub ci_id: int,
    pub cis: Seq<(CiId, CiType, PipelineId)>,
}

/// Nothing gathered; pipelines and CI jobs are numbered from zero.
pub open spec fn projects_init() -> ProjectsView {
    ProjectsView {
        github: seq![],
        status: seq![],
        jenkins: seq![],
        git: seq![],
        github_git: seq![],
        view: seq![],
        pipeline_id: 0,
        ci_id: 0,
        cis: seq![],
    }
}

pub open spec fn then_step(
    r: Result<ProjectsView, GithubBuilderError>,
    f: spec_fn(ProjectsView) -> Result<ProjectsView, GithubBuilderError>,
) -> Result<ProjectsView, GithubBuilderError> {
    match r {
        Ok(s) => f(s),
        Err(e) => Err(e),
    }
}

/// Record the GitHub repository of a project: its pipeline is the current
/// one, and its try pipeline, if it has one, the next.
pub open spec fn step_github(s: ProjectsView, name: Seq<char>, config: ConfigValue, def: ConfigValue) -> Result<
    ProjectsView,
    GithubBuilderError,
> {
    match spec_github_project(name, config, def) {
        Ok(repo) => Ok(
            ProjectsView {
                github: assoc_insert(
                    s.github,
                    repo,
                    github::RepoPipelines {
                        pipeline_id: PipelineId(s.pipeline_id as i32),
                        try_pipeline_id: if spec_has_try(def) {
                            Some(PipelineId((s.pipeline_id + 1) as i32))
                        } else {
                            None
                        },
                    },
                ),
                ..s
            },
        ),
        Err(SetupError::NotFoundConfig) => Ok(s),
        Err(e) => Err(GithubBuilderError::GithubProject(e)),
    }
}

/// Number a CI job for each GitHub status context of a project.
pub open spec fn step_status(s: ProjectsView, name: Seq<char>, config: ConfigValue, def: ConfigValue) -> Result<
    ProjectsView,
    GithubBuilderError,
> {
    match spec_status_contexts(name, config, def) {
        Ok(cs) => Ok(
            ProjectsView {
                status: s.status + status_entries(s.ci_id, status_repo_fields(name, config, def), cs),
                cis: s.cis + ci_entries(s.ci_id, cs.len() as int, CiType::GithubStatus, PipelineId(s.pipeline_id as i32)),
                ci_id: s.ci_id + cs.len(),
                ..s
            },
        ),
        Err(SetupError::NotFoundConfig) => Ok(s),
        Err(e) => Err(GithubBuilderError::GithubStatusProject(e)),
    }
}

/// Number a CI job for each Jenkins job of a project.
pub open spec fn step_jenkins(s: ProjectsView, name: Seq<char>, def: ConfigValue) -> Result<ProjectsView, GithubBuilderError> {
    match spec_jenkins_jobs(name, def) {
        Ok(js) => Ok(
            ProjectsView {
                jenkins: s.jenkins + jenkins_entries(s.ci_id, js),
                cis: s.cis + ci_entries(s.ci_id, js.len() as int, CiType::Jenkins, PipelineId(s.pipeline_id as i32)),
                ci_id: s.ci_id + js.len(),
                ..s
            },
        ),
        Err(SetupError::NotFoundConfig) => Ok(s),
        Err(e) => Err(GithubBuilderError::JenkinsProject(e)),
    }
}

/// Record the git checkout of the current pipeline.
pub open spec fn step_git(s: ProjectsView, name: Seq<char>, config: ConfigValue, def: ConfigValue, is_try: bool) -> Result<
    ProjectsView,
    GithubBuilderError,
> {
    match spec_git_repo(name, config, def, is_try) {
        Ok(repo) => Ok(ProjectsView { git: assoc_insert_absent(s.git, PipelineId(s.pipeline_id as i32), repo), ..s }),
        Err(SetupError::NotFoundConfig) => Ok(s),
        Err(e) => Err(GithubBuilderError::GitProject(e)),
    }
}

/// Record the GitHub repository that the current pipeline pushes to.
pub open spec fn step_github_git(s: ProjectsView, name: Seq<char>, config: ConfigValue, def: ConfigValue, is_try: bool) -> Result<
    ProjectsView,
    GithubBuilderError,
> {
    match spec_github_git_repo(name, config, def, is_try) {
        Ok(repo) => Ok(
            ProjectsView { github_git: assoc_insert_absent(s.github_git, PipelineId(s.pipeline_id as i32), repo), ..s },
        ),
        Err(SetupError::NotFoundConfig) => Ok(s),
        Err(e) => Err(GithubBuilderError::GithubGitProject(e)),
    }
}

/// Show the project under its name as the current pipeline.
pub open spec fn step_view(s: ProjectsView, name: Seq<char>) -> ProjectsView {
    ProjectsView { view: assoc_insert(s.view, name, PipelineId(s.pipeline_id as i32)), ..s }
}

/// Give a project the current pipeline in every worker's table (the
/// GitHub repository only for its first pipeline), then move on to the
/// next pipeline.
pub open spec fn spec_register_pipeline(s: ProjectsView, name: Seq<char>, config: ConfigValue, def: ConfigValue, is_try: bool) -> Result<
    ProjectsView,
    GithubBuilderError,
> {
    let r0 = if is_try {
        Ok(s)
    } else {
        step_github(s, name, config, def)
    };
    let r1 = then_step(r0, |s1: ProjectsView| step_status(s1, name, config, def));
    let r2 = then_step(r1, |s2: ProjectsView| step_jenkins(s2, name, def));
    let r3 = then_step(r2, |s3: ProjectsView| step_git(s3, name, config, def, is_try));
    let r4 = then_step(r3, |s4: ProjectsView| step_github_git(s4, name, config, def, is_try));
    then_step(r4, |s5: ProjectsView| Ok(ProjectsView { pipeline_id: s5.pipeline_id + 1, ..step_view(s5, name) }))
}

/// Register a project: its pipeline, and its try pipeline if it has a
/// `try` section.
pub open spec fn spec_register_project(s: ProjectsView, name: Seq<char>, config: ConfigValue, def: ConfigValue) -> Result<
    ProjectsView,
    GithubBuilderError,
> {
    if !(def is Table) {
        Err(GithubBuilderError::Project(SetupError::InvalidArg(ProjectArg::Project, Ty::Table)))
    } else {
        then_step(
            spec_register_pipeline(s, name, config, def, false),
            |s1: ProjectsView|
                if spec_has_try(def) {
                    spec_register_pipeline(s1, name, config, def, true)
                } else {
                    Ok(s1)
                },
        )
    }
}

/// The first pass over the projects, in their order.
pub open spec fn spec_register_all(projects: Seq<(String, ConfigValue)>, config: ConfigValue) -> Result<
    ProjectsView,
    GithubBuilderError,
>
    decreases projects.len(),
{
    if projects.len() == 0 {
        Ok(projects_init())
    } else {
        then_step(
            spec_register_all(projects.drop_last(), config),
            |s: ProjectsView| spec_register_project(s, projects.last().0@, config, projects.last().1),
        )
    }
}

/// How many CI jobs a project can add in the first pass, at most.
pub open spec fn project_ci_bound(def: ConfigValue) -> int {
    2 * (ci_bound(def, seq!["github"@, "status"@]) + ci_bound(def, seq!["jenkins"@]))
}

/// How many CI jobs the projects can add in the first pass, at most.
pub open spec fn ci_budget(projects: Seq<(String, ConfigValue)>) -> int
    decreases projects.len(),
{
    if projects.len() == 0 {
        0
    } else {
        ci_budget(projects.drop_last()) + project_ci_bound(projects.last().1)
    }
}

pub proof fn lemma_ci_bound_nonneg(def: ConfigValue, keys: Seq<Seq<char>>)
    ensures
        ci_bound(def, keys) >= 0,
{
}

pub proof fn lemma_ci_budget_prefix(projects: Seq<(String, ConfigValue)>, i: int)
    requires
        0 <= i <= projects.len(),
    ensures
        0 <= ci_budget(projects.take(i)) <= ci_budget(projects),
    decreases projects.len(),
{
    if projects.len() > 0 {
        lemma_ci_bound_nonneg(projects.last().1, seq!["github"@, "status"@]);
        lemma_ci_bound_nonneg(projects.last().1, seq!["jenkins"@]);
        if i == projects.len() {
            assert(projects.take(i) =~= projects);
            lemma_ci_budget_prefix(projects.drop_last(), i - 1);
            assert(projects.drop_last().take(i - 1) =~= projects.drop_last());
        } else {
            lemma_ci_budget_prefix(projects.drop_last(), i);
            assert(projects.drop_last().take(i) =~= projects.take(i));
        }
    }
}

pub proof fn lemma_status_array_len(name: Seq<char>, config: ConfigValue, def: ConfigValue, a: Seq<ConfigValue>)
    ensures
        spec_status_array(name, config, def, a) matches Ok(cs) ==> cs.len() == a.len(),
    decreases a.len(),
{
    if a.len() > 0 {
        lemma_status_array_len(name, config, def, a.drop_first());
    }
}

pub proof fn lemma_jenkins_array_len(name: Seq<char>, a: Seq<ConfigValue>)
    ensures
        spec_jenkins_array(name, a) matches Ok(js) ==> js.len() == a.len(),
    decreases a.len(),
{
    if a.len() > 0 {
        lemma_jenkins_array_len(name, a.drop_first());
    }
}

/// A pipeline's registration numbers the next pipeline, and adds at most
/// as many CI jobs as the project's sections can define.
pub proof fn lemma_register_pipeline_counts(s: ProjectsView, name: Seq<char>, config: ConfigValue, def: ConfigValue, is_try: bool)
    ensures
        spec_register_pipeline(s, name, config, def, is_try) matches Ok(v) ==> v.pipeline_id == s.pipeline_id + 1
            && s.ci_id <= v.ci_id <= s.ci_id + ci_bound(def, seq!["github"@, "status"@]) + ci_bound(def, seq!["jenkins"@]),
{
    match value_lookup(def, seq!["github"@, "status"@]) {
        Some(ConfigValue::Array(a)) => lemma_status_array_len(name, config, def, a@),
        _ => {},
    }
    match value_lookup(def, seq!["jenkins"@]) {
        Some(ConfigValue::Array(a)) => lemma_jenkins_array_len(name, a@),
        _ => {},
    }
}

/// The tables of every worker, as the first pass fills them.
pub struct ProjectsState {
    pub github_projects: StaticGithubProjectsConfig,
    pub github_status_pipelines: StaticGithubStatusPipelinesConfig,
    pub jenkins_pipelines: StaticJenkinsPipelinesConfig,
    pub git_pipelines: StaticGitPipelinesConfig,
    pub github_git_pipelines: StaticGithubGitPipelinesConfig,
    pub view_pipelines: StaticViewPipelinesConfig,
    pub pipeline_id: PipelineId,
    pub ci_id: CiId,
    pub ci_to_pipeline: CiPipelines,
}

impl View for ProjectsState {
    type V = ProjectsView;

    open spec fn view(&self) -> ProjectsView {
        ProjectsView {
            github: self.github_projects@,
            status: self.github_status_pipelines@,
            jenkins: self.jenkins_pipelines@,
            git: self.git_pipelines@,
            github_git: self.github_git_pipelines@,
            view: self.view_pipelines@,
            pipeline_id: self.pipeline_id.0 as int,
            ci_id: self.ci_id.0 as int,
            cis: self.ci_to_pipeline.0@,
        }
    }
}

/// Whether `r` is what a step that should give `spec` gave.
pub open spec fn step_done(r: Result<(), GithubBuilderError>, old_v: ProjectsView, new_v: ProjectsView, spec: Result<
    ProjectsView,
    GithubBuilderError,
>) -> bool {
    match spec {
        Ok(v) => r is Ok && new_v == v,
        Err(e) => r == Err::<(), GithubBuilderError>(e),
    }
}

impl ProjectsState {
    pub fn new() -> (r: ProjectsState)
        ensures
            r@ == projects_init(),
    {
        let r = ProjectsState {
            github_projects: StaticGithubProjectsConfig::new(),
            github_status_pipelines: StaticGithubStatusPipelinesConfig::new(),
            jenkins_pipelines: StaticJenkinsPipelinesConfig::new(),
            git_pipelines: StaticGitPipelinesConfig::new(),
            github_git_pipelines: StaticGithubGitPipelinesConfig::new(),
            view_pipelines: StaticViewPipelinesConfig::new(),
            pipeline_id: PipelineId(0),
            ci_id: CiId(0),
            ci_to_pipeline: CiPipelines::new(),
        };
        proof {
            assert(r@.github =~= projects_init().github);
            assert(r@.status =~= projects_init().status);
            assert(r@.jenkins =~= projects_init().jenkins);
            assert(r@.git =~= projects_init().git);
            assert(r@.github_git =~= projects_init().github_git);
            assert(r@.view =~= projects_init().view);
            assert(r@.cis =~= projects_init().cis);
        }
        r
    }

    fn add_github(&mut self, name: &str, config: &ConfigValue, def: &ConfigValue) -> (r: Result<(), GithubBuilderError>)
        requires
            old(self).pipeline_id.0 < i32::MAX,
        ensures
            step_done(r, old(self)@, final(self)@, step_github(old(self)@, name@, *config, *def)),
    {
        match self.github_projects.add_project(name, config, def, self.pipeline_id) {
            Ok(()) => Ok(()),
            Err(SetupError::NotFoundConfig) => Ok(()),
            Err(e) => Err(GithubBuilderError::GithubProject(e)),
        }
    }

    fn add_status(&mut self, name: &str, config: &ConfigValue, def: &ConfigValue) -> (r: Result<(), GithubBuilderError>)
        requires
            old(self).ci_id.0 + ci_bound(*def, seq!["github"@, "status"@]) < i32::MAX,
        ensures
            step_done(r, old(self)@, final(self)@, step_status(old(self)@, name@, *config, *def)),
    {
        match self.github_status_pipelines.add_pipeline(
            name,
            config,
            def,
            self.pipeline_id,
            &mut self.ci_id,
            &mut self.ci_to_pipeline,
        ) {
            Ok(()) => Ok(()),
            Err(SetupError::NotFoundConfig) => Ok(()),
            Err(e) => Err(GithubBuilderError::GithubStatusProject(e)),
        }
    }

    fn add_jenkins(&mut self, name: &str, def: &ConfigValue) -> (r: Result<(), GithubBuilderError>)
        requires
            old(self).ci_id.0 + ci_bound(*def, seq!["jenkins"@]) < i32::MAX,
        ensures
            step_done(r, old(self)@, final(self)@, step_jenkins(old(self)@, name@, *def)),
    {
        match self.jenkins_pipelines.add_pipeline(name, def, self.pipeline_id, &mut self.ci_id, &mut self.ci_to_pipeline) {
            Ok(()) => Ok(()),
            Err(SetupError::NotFoundConfig) => Ok(()),
            Err(e) => Err(GithubBuilderError::JenkinsProject(e)),
        }
    }

    fn add_git(&mut self, name: &str, config: &ConfigValue, def: &ConfigValue, is_try: bool) -> (r: Result<(), GithubBuilderError>)
        ensures
            step_done(r, old(self)@, final(self)@, step_git(old(self)@, name@, *config, *def, is_try)),
    {
        match self.git_pipelines.add_pipeline(name, config, def, self.pipeline_id, is_try) {
            Ok(()) => Ok(()),
            Err(SetupError::NotFoundConfig) => Ok(()),
            Err(e) => Err(GithubBuilderError::GitProject(e)),
        }
    }

    fn add_github_git(&mut self, name: &str, config: &ConfigValue, def: &ConfigValue, is_try: bool) -> (r: Result<
        (),
        GithubBuilderError,
    >)
        ensures
            step_done(r, old(self)@, final(self)@, step_github_git(old(self)@, name@, *config, *def, is_try)),
    {
        match self.github_git_pipelines.add_pipeline(name, config, def, self.pipeline_id, is_try) {
            Ok(()) => Ok(()),
            Err(SetupError::NotFoundConfig) => Ok(()),
            Err(e) => Err(GithubBuilderError::GithubGitProject(e)),
        }
    }

    fn register_pipeline(&mut self, name: &str, config: &ConfigValue, def: &ConfigValue, is_try: bool) -> (r: Result<
        (),
        GithubBuilderError,
    >)
        requires
            old(self).pipeline_id.0 + 1 < i32::MAX,
            old(self).ci_id.0 + ci_bound(*def, seq!["github"@, "status"@]) + ci_bound(*def, seq!["jenkins"@]) < i32::MAX,
        ensures
            step_done(r, old(self)@, final(self)@, spec_register_pipeline(old(self)@, name@, *config, *def, is_try)),
    {
        let ghost s0 = self@;
        proof {
            lemma_ci_bound_nonneg(*def, seq!["github"@, "status"@]);
            lemma_ci_bound_nonneg(*def, seq!["jenkins"@]);
            match value_lookup(*def, seq!["github"@, "status"@]) {
                Some(ConfigValue::Array(a)) => lemma_status_array_len(name@, *config, *def, a@),
                _ => {},
            }
        }
        if !is_try {
            match self.add_github(name, config, def) {
                Ok(()) => {},
                Err(e) => return Err(e),
            }
        }
        let ghost s1 = self@;
        assert(s1.ci_id == s0.ci_id && s1.pipeline_id == s0.pipeline_id);
        match self.add_status(name, config, def) {
            Ok(()) => {},
            Err(e) => return Err(e),
        }
        let ghost s2 = self@;
        match self.add_jenkins(name, def) {
            Ok(()) => {},
            Err(e) => return Err(e),
        }
        let ghost s3 = self@;
        match self.add_git(name, config, def, is_try) {
            Ok(()) => {},
            Err(e) => return Err(e),
        }
        let ghost s4 = self@;
        match self.add_github_git(name, config, def, is_try) {
            Ok(()) => {},
            Err(e) => return Err(e),
        }
        let ghost s5 = self@;
        let _ = self.view_pipelines.add_pipeline(name, self.pipeline_id);
        self.pipeline_id = PipelineId(self.pipeline_id.0 + 1);
        proof {
            assert(self@ == ProjectsView { pipeline_id: s5.pipeline_id + 1, ..step_view(s5, name@) });
        }
        Ok(())
    }

    /// Register a project; see [`spec_register_project`].
    pub fn register_project(&mut self, name: &str, config: &ConfigValue, def: &ConfigValue) -> (r: Result<(), GithubBuilderError>)
        requires
            old(self).pipeline_id.0 + 2 < i32::MAX,
            old(self).ci_id.0 + project_ci_bound(*def) < i32::MAX,
        ensures
            step_done(r, old(self)@, final(self)@, spec_register_project(old(self)@, name@, *config, *def)),
            r is Ok ==> final(self)@.pipeline_id <= old(self)@.pipeline_id + 2 && old(self)@.ci_id <= final(self)@.ci_id
                <= old(self)@.ci_id + project_ci_bound(*def),
    {
        if !def.is_table() {
            return Err(GithubBuilderError::Project(SetupError::InvalidArg(ProjectArg::Project, Ty::Table)));
        }
        let ghost s0 = self@;
        proof {
            lemma_register_pipeline_counts(s0, name@, *config, *def, false);
            lemma_ci_bound_nonneg(*def, seq!["github"@, "status"@]);
            lemma_ci_bound_nonneg(*def, seq!["jenkins"@]);
        }
        match self.register_pipeline(name, config, def, false) {
            Ok(()) => {},
            Err(e) => return Err(e),
        }
        let ghost s1 = self@;
        let t: &[&str] = &["try"];
        proof {
            assert(keys_view(t@) =~= seq!["try"@]);
            lemma_register_pipeline_counts(s1, name@, *config, *def, true);
        }
        if def.lookup(t).is_some() {
            match self.register_pipeline(name, config, def, true) {
                Ok(()) => {},
                Err(e) => return Err(e),
            }
        }
        Ok(())
    }
}


/// A failing registration of a prefix of the projects fails the whole
/// pass with the same error.
pub proof fn lemma_register_all_err(projects: Seq<(String, ConfigValue)>, config: ConfigValue, i: int)
    requires
        0 <= i <= projects.len(),
        spec_register_all(projects.take(i), config) is Err,
    ensures
        spec_register_all(projects, config) == spec_register_all(projects.take(i), config),
    decreases projects.len(),
{
    if i == projects.len() {
        assert(projects.take(i) =~= projects);
    } else {
        assert(projects.drop_last().take(i) =~= projects.take(i));
        lemma_register_all_err(projects.drop_last(), config, i);
    }
}

// ----- The workers.

/// Which workers the `[config]` section sets up.
pub struct Workers {
    pub github: bool,
    pub github_status: bool,
    pub jenkins: bool,
    pub git: bool,
    pub github_git: bool,
    pub view: bool,
}

/// Whether a worker is set up: its settings are read, or its section is
/// missing; any other problem is an error.
pub open spec fn opt_worker<A, T>(r: Result<A, SetupError<T>>, wrap: spec_fn(SetupError<T>) -> GithubBuilderError) -> Result<
    bool,
    GithubBuilderError,
> {
    match r {
        Ok(_) => Ok(true),
        Err(SetupError::NotFoundConfig) => Ok(false),
        Err(e) => Err(wrap(e)),
    }
}

/// The workers, set up in this order: GitHub, GitHub statuses, Jenkins,
/// git, GitHub's git, and the view.
pub open spec fn spec_workers(config: ConfigValue) -> Result<Workers, GithubBuilderError> {
    match opt_worker(crate::config::toml::spec_setup_github(config), |e| GithubBuilderError::Github(e)) {
        Err(e) => Err(e),
        Ok(github) => match opt_worker(
            crate::config::toml::spec_setup_github_status(config),
            |e| GithubBuilderError::GithubStatus(e),
        ) {
            Err(e) => Err(e),
            Ok(github_status) => match opt_worker(
                crate::config::toml::spec_setup_jenkins(config),
                |e| GithubBuilderError::Jenkins(e),
            ) {
                Err(e) => Err(e),
                Ok(jenkins) => match opt_worker(crate::config::toml::spec_setup_git(config), |e| GithubBuilderError::Git(e)) {
                    Err(e) => Err(e),
                    Ok(git) => match opt_worker(
                        crate::config::toml::spec_setup_github_git(config),
                        |e| GithubBuilderError::GithubGit(e),
                    ) {
                        Err(e) => Err(e),
                        Ok(github_git) => match opt_worker(
                            crate::config::toml::spec_setup_view(config),
                            |e| GithubBuilderError::View(e),
                        ) {
                            Err(e) => Err(e),
                            Ok(view) => Ok(Workers { github, github_status, jenkins, git, github_git, view }),
                        },
                    },
                },
            },
        },
    }
}

/// The index of each worker among the workers of its kind: the UI workers
/// (GitHub), the CI workers (GitHub statuses, then Jenkins), and the VCS
/// workers (git, then GitHub's git).
pub struct WorkerIdx {
    pub github: Option<usize>,
    pub github_status: Option<usize>,
    pub jenkins: Option<usize>,
    pub git: Option<usize>,
    pub github_git: Option<usize>,
}

pub open spec fn worker_idx(w: Workers) -> WorkerIdx {
    WorkerIdx {
        github: if w.github {
            Some(0)
        } else {
            None
        },
        github_status: if w.github_status {
            Some(0)
        } else {
            None
        },
        jenkins: if w.jenkins {
            if w.github_status {
                Some(1)
            } else {
                Some(0)
            }
        } else {
            None
        },
        git: if w.git {
            Some(0)
        } else {
            None
        },
        github_git: if w.github_git {
            if w.git {
                Some(1)
            } else {
                Some(0)
            }
        } else {
            None
        },
    }
}

// ----- The second pass: the pipelines.

/// The CI jobs of pipeline `pipeline_id`, each with the index of its
/// worker, in the order they were numbered; `None` when one of them has
/// no worker.
pub open spec fn ci_list(cis: Seq<(CiId, CiType, PipelineId)>, pipeline_id: PipelineId, idx: WorkerIdx) -> Option<
    Seq<(CiId, usize)>,
>
    decreases cis.len(),
{
    if cis.len() == 0 {
        Some(seq![])
    } else {
        match ci_list(cis.drop_last(), pipeline_id, idx) {
            None => None,
            Some(l) => {
                let e = cis.last();
                if e.2 == pipeline_id {
                    let w = match e.1 {
                        CiType::Jenkins => idx.jenkins,
                        CiType::GithubStatus => idx.github_status,
                    };
                    match w {
                        Some(k) => Some(l.push((e.0, k))),
                        None => None,
                    }
                } else {
                    Some(l)
                }
            },
        }
    }
}

/// The description of a project's pipeline: it needs at least one CI job,
/// all of them with a worker, the GitHub UI worker, and the git worker if
/// the project has a `git` section, else GitHub's git worker.
pub open spec fn spec_pipeline_for(def: ConfigValue, pipeline_id: PipelineId, cis: Seq<(CiId, CiType, PipelineId)>, idx: WorkerIdx) -> Result<
    PipelineConfigView,
    GithubBuilderError,
> {
    match ci_list(cis, pipeline_id, idx) {
        None => Err(GithubBuilderError::Dangling),
        Some(l) => if l.len() == 0 {
            Err(GithubBuilderError::Dangling)
        } else if value_lookup(def, seq!["github"@]) is None {
            Err(GithubBuilderError::Dangling)
        } else {
            match idx.github {
                None => Err(GithubBuilderError::Dangling),
                Some(ui) => {
                    let vcs = if value_lookup(def, seq!["git"@]) is Some {
                        idx.git
                    } else {
                        idx.github_git
                    };
                    match vcs {
                        None => Err(GithubBuilderError::Dangling),
                        Some(v) => Ok(PipelineConfigView { pipeline_id, ci: l, ui, vcs: v }),
                    }
                },
            }
        },
    }
}

/// The second pass: each project's pipeline is numbered by how many
/// pipelines come before it, and a project with a `try` section gets the
/// same description twice.
pub open spec fn spec_pipelines(projects: Seq<(String, ConfigValue)>, cis: Seq<(CiId, CiType, PipelineId)>, idx: WorkerIdx) -> Result<
    Seq<PipelineConfigView>,
    GithubBuilderError,
>
    decreases projects.len(),
{
    if projects.len() == 0 {
        Ok(seq![])
    } else {
        match spec_pipelines(projects.drop_last(), cis, idx) {
            Err(e) => Err(e),
            Ok(ps) => {
                let def = projects.last().1;
                match spec_pipeline_for(def, PipelineId(ps.len() as i32), cis, idx) {
                    Err(e) => Err(e),
                    Ok(c) => Ok(
                        if spec_has_try(def) {
                            ps.push(c).push(c)
                        } else {
                            ps.push(c)
                        },
                    ),
                }
            },
        }
    }
}

pub proof fn lemma_pipelines_err(projects: Seq<(String, ConfigValue)>, cis: Seq<(CiId, CiType, PipelineId)>, idx: WorkerIdx, i: int)
    requires
        0 <= i <= projects.len(),
        spec_pipelines(projects.take(i), cis, idx) is Err,
    ensures
        spec_pipelines(projects, cis, idx) == spec_pipelines(projects.take(i), cis, idx),
    decreases projects.len(),
{
    if i == projects.len() {
        assert(projects.take(i) =~= projects);
    } else {
        assert(projects.drop_last().take(i) =~= projects.take(i));
        lemma_pipelines_err(projects.drop_last(), cis, idx, i);
    }
}

/// The CI jobs of a pipeline; see [`ci_list`].
fn ci_list_of(cis: &CiPipelines, pipeline_id: PipelineId, github_status: Option<usize>, jenkins: Option<usize>) -> (r: Option<
    Vec<(CiId, usize)>,
>)
    ensures
        match r {
            Some(l) => ci_list(
                cis.0@,
                pipeline_id,
                WorkerIdx { github: None, github_status, jenkins, git: None, github_git: None },
            ) == Some(l@),
            None => ci_list(
                cis.0@,
                pipeline_id,
                WorkerIdx { github: None, github_status, jenkins, git: None, github_git: None },
            ) is None,
        },
{
    let ghost idx = WorkerIdx { github: None, github_status, jenkins, git: None, github_git: None };
    let mut l: Vec<(CiId, usize)> = Vec::new();
    let mut i: usize = 0;
    proof {
        assert(cis.0@.take(0) =~= Seq::<(CiId, CiType, PipelineId)>::empty());
    }
    while i < cis.0.len()
        invariant
            i <= cis.0.len(),
            idx == (WorkerIdx { github: None, github_status, jenkins, git: None, github_git: None }),
            ci_list(cis.0@.take(i as int), pipeline_id, idx) == Some(l@),
        decreases cis.0.len() - i,
    {
        let e = cis.0[i];
        proof {
            assert(cis.0@.take(i + 1).drop_last() =~= cis.0@.take(i as int));
            assert(cis.0@.take(i + 1).last() == e);
        }
        if e.2 == pipeline_id {
            let w = match e.1 {
                CiType::Jenkins => jenkins,
                CiType::GithubStatus => github_status,
            };
            match w {
                Some(k) => {
                    l.push((e.0, k));
                },
                None => {
                    proof {
                        lemma_ci_list_none(cis.0@, pipeline_id, idx, i + 1);
                    }
                    return None;
                },
            }
        }
        i = i + 1;
    }
    proof {
        assert(cis.0@.take(i as int) =~= cis.0@);
    }
    Some(l)
}

pub proof fn lemma_ci_list_none(cis: Seq<(CiId, CiType, PipelineId)>, pipeline_id: PipelineId, idx: WorkerIdx, i: int)
    requires
        0 <= i <= cis.len(),
        ci_list(cis.take(i), pipeline_id, idx) is None,
    ensures
        ci_list(cis, pipeline_id, idx) is None,
    decreases cis.len(),
{
    if i == cis.len() {
        assert(cis.take(i) =~= cis);
    } else {
        assert(cis.drop_last().take(i) =~= cis.take(i));
        lemma_ci_list_none(cis.drop_last(), pipeline_id, idx, i);
    }
}

/// Which workers exist, and the index of each within its kind.
pub struct WorkerIndices {
    pub github: Option<usize>,
    pub github_status: Option<usize>,
    pub jenkins: Option<usize>,
    pub git: Option<usize>,
    pub github_git: Option<usize>,
}

impl View for WorkerIndices {
    type V = WorkerIdx;

    open spec fn view(&self) -> WorkerIdx {
        WorkerIdx {
            github: self.github,
            github_status: self.github_status,
            jenkins: self.jenkins,
            git: self.git,
            github_git: self.github_git,
        }
    }
}

/// The description of a project's pipeline; see [`spec_pipeline_for`].
pub fn pipeline_for(def: &ConfigValue, pipeline_id: PipelineId, cis: &CiPipelines, idx: &WorkerIndices) -> (r: Result<
    PipelineConfig,
    GithubBuilderError,
>)
    ensures
        match r {
            Ok(c) => spec_pipeline_for(*def, pipeline_id, cis.0@, idx@) == Ok::<_, GithubBuilderError>(c@),
            Err(e) => spec_pipeline_for(*def, pipeline_id, cis.0@, idx@) == Err::<PipelineConfigView, _>(e),
        },
{
    proof {
        lemma_ci_list_idx(cis.0@, pipeline_id, idx@);
    }
    let ci = match ci_list_of(cis, pipeline_id, idx.github_status, idx.jenkins) {
        Some(l) => l,
        None => return Err(GithubBuilderError::Dangling),
    };
    if ci.len() == 0 {
        return Err(GithubBuilderError::Dangling);
    }
    let g: &[&str] = &["github"];
    let gt: &[&str] = &["git"];
    proof {
        assert(keys_view(g@) =~= seq!["github"@]);
        assert(keys_view(gt@) =~= seq!["git"@]);
    }
    if def.lookup(g).is_none() {
        return Err(GithubBuilderError::Dangling);
    }
    let ui = match idx.github {
        Some(ui) => ui,
        None => return Err(GithubBuilderError::Dangling),
    };
    let vcs = if def.lookup(gt).is_some() {
        idx.git
    } else {
        idx.github_git
    };
    match vcs {
        Some(v) => Ok(PipelineConfig { pipeline_id, ci, ui, vcs: v }),
        None => Err(GithubBuilderError::Dangling),
    }
}

/// [`ci_list`] reads only the indices of the CI workers.
pub proof fn lemma_ci_list_idx(cis: Seq<(CiId, CiType, PipelineId)>, pipeline_id: PipelineId, idx: WorkerIdx)
    ensures
        ci_list(cis, pipeline_id, idx) == ci_list(
            cis,
            pipeline_id,
            WorkerIdx { github: None, github_status: idx.github_status, jenkins: idx.jenkins, git: None, github_git: None },
        ),
    decreases cis.len(),
{
    if cis.len() > 0 {
        lemma_ci_list_idx(cis.drop_last(), pipeline_id, idx);
    }
}

// ----- The whole configuration.

/// Read a configuration: `config` and `projects` must be there, and
/// `config.github` too; then the first pass over the projects, the
/// workers, and the second pass.
pub open spec fn spec_build(main: ConfigValue) -> Result<
    (ConfigValue, ProjectsView, Workers, Seq<PipelineConfigView>),
    GithubBuilderError,
> {
    match value_get(main, "config"@) {
        None => Err(GithubBuilderError::NoConfig),
        Some(config) => match value_get(main, "projects"@) {
            Some(ConfigValue::Table(ps)) => if value_lookup(config, seq!["github"@]) is None {
                Err(GithubBuilderError::NoConfigGithub)
            } else {
                match spec_register_all(ps@, config) {
                    Err(e) => Err(e),
                    Ok(reg) => match spec_workers(config) {
                        Err(e) => Err(e),
                        Ok(w) => match spec_pipelines(ps@, reg.cis, worker_idx(w)) {
                            Err(e) => Err(e),
                            Ok(pls) => Ok((config, reg, w, pls)),
                        },
                    },
                }
            },
            _ => Err(GithubBuilderError::NoProjects),
        },
    }
}

/// Everything needed to start the workers: the settings of each worker
/// that is set up, with its table of projects; the pipelines; and the
/// database.
pub struct GithubBuilder {
    pub github: Option<(GithubSetup, StaticGithubProjectsConfig)>,
    pub github_status: Option<(GithubStatusSetup, StaticGithubStatusPipelinesConfig)>,
    pub jenkins: Option<(JenkinsSetup, StaticJenkinsPipelinesConfig)>,
    pub git: Option<(GitSetup, StaticGitPipelinesConfig)>,
    pub github_git: Option<(GithubGitSetup, StaticGithubGitPipelinesConfig)>,
    pub view: Option<(ViewSetup, StaticViewPipelinesConfig)>,
    pub pipelines: StaticPipelinesConfig,
    pub db: String,
}

impl GithubBuilder {
    /// Whether this is what the configuration `config` describes, given
    /// the outcome of the first pass, the workers and the pipelines.
    pub open spec fn describes(self, config: ConfigValue, reg: ProjectsView, w: Workers, pls: Seq<PipelineConfigView>) -> bool {
        &&& (self.github is Some) == w.github
        &&& (self.github matches Some(p) ==> crate::config::toml::spec_setup_github(config) == Ok::<
            _,
            SetupError<GithubArg>,
        >(p.0@) && p.1@ == reg.github)
        &&& (self.github_status is Some) == w.github_status
        &&& (self.github_status matches Some(p) ==> crate::config::toml::spec_setup_github_status(config) == Ok::<
            _,
            SetupError<GithubStatusArg>,
        >((p.0.listen@, p.0.secret@)) && p.1@ == reg.status)
        &&& (self.jenkins is Some) == w.jenkins
        &&& (self.jenkins matches Some(p) ==> crate::config::toml::spec_setup_jenkins(config) == Ok::<
            _,
            SetupError<JenkinsArg>,
        >((p.0.listen@, p.0.host@, crate::config::toml::auth_pair_view(p.0.auth))) && p.1@ == reg.jenkins)
        &&& (self.git is Some) == w.git
        &&& (self.git matches Some(p) ==> crate::config::toml::spec_setup_git(config) == Ok::<_, SetupError<GitArg>>(
            (p.0.executable@, p.0.name@, p.0.email@),
        ) && p.1@ == reg.git)
        &&& (self.github_git is Some) == w.github_git
        &&& (self.github_git matches Some(p) ==> crate::config::toml::spec_setup_github_git(config) == Ok::<
            _,
            SetupError<GithubGitArg>,
        >((p.0.host@, p.0.token@)) && p.1@ == reg.github_git)
        &&& (self.view is Some) == w.view
        &&& (self.view matches Some(p) ==> crate::config::toml::spec_setup_view(config) == Ok::<_, SetupError<ViewArg>>(
            (p.0.listen@, p.0.db@, p.0.secret@, p.0.auth@),
        ) && p.1@ == reg.view)
        &&& pipelines_view(self.pipelines.0@) == pls
        &&& self.db@ == crate::config::toml::spec_default_db(config)
    }

    /// Set up each worker whose section is there, with its table of
    /// projects; the pipelines are still to be worked out.
    fn setup_workers(config: &ConfigValue, state: ProjectsState) -> (r: Result<(GithubBuilder, CiPipelines), GithubBuilderError>)
        ensures
            match r {
                Ok((b, cis)) => spec_workers(*config) matches Ok(w) && b.describes(*config, state@, w, seq![])
                    && cis.0@ == state@.cis,
                Err(e) => spec_workers(*config) == Err::<Workers, _>(e),
            },
    {
        let github = match crate::config::toml::setup_github(config) {
            Ok(x) => Some((x, state.github_projects)),
            Err(SetupError::NotFoundConfig) => None,
            Err(e) => return Err(GithubBuilderError::Github(e)),
        };
        let github_status = match crate::config::toml::setup_github_status(config) {
            Ok(x) => Some((x, state.github_status_pipelines)),
            Err(SetupError::NotFoundConfig) => None,
            Err(e) => return Err(GithubBuilderError::GithubStatus(e)),
        };
        let jenkins = match crate::config::toml::setup_jenkins(config) {
            Ok(x) => Some((x, state.jenkins_pipelines)),
            Err(SetupError::NotFoundConfig) => None,
            Err(e) => return Err(GithubBuilderError::Jenkins(e)),
        };
        let git = match crate::config::toml::setup_git(config) {
            Ok(x) => Some((x, state.git_pipelines)),
            Err(SetupError::NotFoundConfig) => None,
            Err(e) => return Err(GithubBuilderError::Git(e)),
        };
        let github_git = match crate::config::toml::setup_github_git(config) {
            Ok(x) => Some((x, state.github_git_pipelines)),
            Err(SetupError::NotFoundConfig) => None,
            Err(e) => return Err(GithubBuilderError::GithubGit(e)),
        };
        let view = match crate::config::toml::setup_view(config) {
            Ok(x) => Some((x, state.view_pipelines)),
            Err(SetupError::NotFoundConfig) => None,
            Err(e) => return Err(GithubBuilderError::View(e)),
        };
        let pipelines = StaticPipelinesConfig::new();
        let db = crate::config::toml::default_db(config);
        let b = GithubBuilder { github, github_status, jenkins, git, github_git, view, pipelines, db };
        proof {
            assert(pipelines_view(b.pipelines.0@) =~= Seq::<PipelineConfigView>::empty());
        }
        Ok((b, state.ci_to_pipeline))
    }

    /// The indices of the workers that are set up.
    fn indices(&self) -> (r: WorkerIndices)
        ensures
            r@ == worker_idx(
                Workers {
                    github: self.github is Some,
                    github_status: self.github_status is Some,
                    jenkins: self.jenkins is Some,
                    git: self.git is Some,
                    github_git: self.github_git is Some,
                    view: self.view is Some,
                },
            ),
    {
        WorkerIndices {
            github: if self.github.is_some() {
                Some(0)
            } else {
                None
            },
            github_status: if self.github_status.is_some() {
                Some(0)
            } else {
                None
            },
            jenkins: if self.jenkins.is_some() {
                if self.github_status.is_some() {
                    Some(1)
                } else {
                    Some(0)
                }
            } else {
                None
            },
            git: if self.git.is_some() {
                Some(0)
            } else {
                None
            },
            github_git: if self.github_git.is_some() {
                if self.git.is_some() {
                    Some(1)
                } else {
                    Some(0)
                }
            } else {
                None
            },
        }
    }

    /// Work out every worker and pipeline from a parsed configuration file;
    /// see [`spec_build`].
    pub fn build_from_toml(config_main: &ConfigValue) -> (r: Result<GithubBuilder, GithubBuilderError>)
        requires
            value_get(*config_main, "projects"@) matches Some(ConfigValue::Table(ps)) ==> 2 * ps@.len() + 2 < i32::MAX
                && ci_budget(ps@) + 1 < i32::MAX,
        ensures
            match r {
                Ok(b) => spec_build(*config_main) matches Ok(p) && b.describes(p.0, p.1, p.2, p.3),
                Err(e) => spec_build(*config_main) == Err::<(ConfigValue, ProjectsView, Workers, Seq<PipelineConfigView>), _>(e),
            },
    {
        let config = match config_main.get("config") {
            Some(c) => c,
            None => return Err(GithubBuilderError::NoConfig),
        };
        let entries = match config_main.get("projects") {
            Some(ConfigValue::Table(ps)) => ps,
            _ => return Err(GithubBuilderError::NoProjects),
        };
        let g: &[&str] = &["github"];
        proof {
            assert(keys_view(g@) =~= seq!["github"@]);
        }
        if config.lookup(g).is_none() {
            return Err(GithubBuilderError::NoConfigGithub);
        }
        let state = match register_all(entries, config) {
            Ok(s) => s,
            Err(e) => return Err(e),
        };
        let ghost reg = state@;
        let (mut b, cis) = match GithubBuilder::setup_workers(config, state) {
            Ok(x) => x,
            Err(e) => return Err(e),
        };
        let idx = b.indices();
        let ghost w = Workers {
            github: b.github is Some,
            github_status: b.github_status is Some,
            jenkins: b.jenkins is Some,
            git: b.git is Some,
            github_git: b.github_git is Some,
            view: b.view is Some,
        };
        assert(spec_workers(*config) == Ok::<_, GithubBuilderError>(w));
        match build_pipelines(entries, &cis, &idx) {
            Ok(p) => {
                b.pipelines = p;
                Ok(b)
            },
            Err(e) => Err(e),
        }
    }
}

/// The first pass over the projects; see [`spec_register_all`].
fn register_all(entries: &Vec<(String, ConfigValue)>, config: &ConfigValue) -> (r: Result<ProjectsState, GithubBuilderError>)
    requires
        2 * entries@.len() + 2 < i32::MAX,
        ci_budget(entries@) + 1 < i32::MAX,
    ensures
        match r {
            Ok(s) => spec_register_all(entries@, *config) == Ok::<_, GithubBuilderError>(s@),
            Err(e) => spec_register_all(entries@, *config) == Err::<ProjectsView, _>(e),
        },
{
    let mut state = ProjectsState::new();
    let mut i: usize = 0;
    proof {
        assert(entries@.take(0) =~= Seq::<(String, ConfigValue)>::empty());
    }
    while i < entries.len()
        invariant
            i <= entries.len(),
            2 * entries@.len() + 2 < i32::MAX,
            ci_budget(entries@) + 1 < i32::MAX,
            spec_register_all(entries@.take(i as int), *config) == Ok::<_, GithubBuilderError>(state@),
            0 <= state@.pipeline_id <= 2 * i,
            0 <= state@.ci_id <= ci_budget(entries@.take(i as int)),
        decreases entries.len() - i,
    {
        proof {
            let t1 = entries@.take(i + 1);
            assert(t1.drop_last() =~= entries@.take(i as int));
            assert(t1.last() == entries@[i as int]);
            lemma_ci_budget_prefix(entries@, i + 1);
        }
        match state.register_project(entries[i].0.as_str(), config, &entries[i].1) {
            Ok(()) => {},
            Err(e) => {
                proof {
                    lemma_register_all_err(entries@, *config, i + 1);
                }
                return Err(e);
            },
        }
        i = i + 1;
    }
    proof {
        assert(entries@.take(i as int) =~= entries@);
    }
    Ok(state)
}

/// The second pass over the projects; see [`spec_pipelines`].
fn build_pipelines(entries: &Vec<(String, ConfigValue)>, cis: &CiPipelines, idx: &WorkerIndices) -> (r: Result<
    StaticPipelinesConfig,
    GithubBuilderError,
>)
    requires
        2 * entries@.len() + 2 < i32::MAX,
    ensures
        match r {
            Ok(p) => spec_pipelines(entries@, cis.0@, idx@) == Ok::<_, GithubBuilderError>(pipelines_view(p.0@)),
            Err(e) => spec_pipelines(entries@, cis.0@, idx@) == Err::<Seq<PipelineConfigView>, _>(e),
        },
{
    let mut pipelines = StaticPipelinesConfig::new();
    let mut i: usize = 0;
    proof {
        assert(pipelines_view(pipelines.0@) =~= Seq::<PipelineConfigView>::empty());
        assert(entries@.take(0) =~= Seq::<(String, ConfigValue)>::empty());
    }
    while i < entries.len()
        invariant
            i <= entries.len(),
            2 * entries@.len() + 2 < i32::MAX,
            spec_pipelines(entries@.take(i as int), cis.0@, idx@) == Ok::<_, GithubBuilderError>(pipelines_view(pipelines.0@)),
            pipelines.0@.len() <= 2 * i,
        decreases entries.len() - i,
    {
        let ghost ps = pipelines_view(pipelines.0@);
        let def = &entries[i].1;
        let pid = PipelineId(pipelines.0.len() as i32);
        proof {
            let t1 = entries@.take(i + 1);
            assert(t1.drop_last() =~= entries@.take(i as int));
            assert(t1.last() == entries@[i as int]);
        }
        let cfg = match pipeline_for(def, pid, cis, idx) {
            Ok(c) => c,
            Err(e) => {
                proof {
                    lemma_pipelines_err(entries@, cis.0@, idx@, i + 1);
                }
                return Err(e);
            },
        };
        let ghost cv = cfg@;
        if crate::config::toml::has_try(def) {
            let c2 = cfg.clone();
            pipelines.0.push(c2);
            pipelines.0.push(cfg);
            proof {
                assert(pipelines_view(pipelines.0@) =~= ps.push(cv).push(cv));
            }
        } else {
            pipelines.0.push(cfg);
            proof {
                assert(pipelines_view(pipelines.0@) =~= ps.push(cv));
            }
        }
        i = i + 1;
    }
    proof {
        assert(entries@.take(i as int) =~= entries@);
    }
    Ok(pipelines)
}

// ----- What every configuration that is accepted describes.

/// How many workers of each kind are set up.
pub open spec fn ui_count(w: Workers) -> int {
    if w.github {
        1
    } else {
        0
    }
}

pub open spec fn ci_count(w: Workers) -> int {
    (if w.github_status {
        1int
    } else {
        0int
    }) + (if w.jenkins {
        1int
    } else {
        0int
    })
}

pub open spec fn vcs_count(w: Workers) -> int {
    (if w.git {
        1int
    } else {
        0int
    }) + (if w.github_git {
        1int
    } else {
        0int
    })
}

/// A pipeline waits on at least one CI job, and each of its workers is one
/// that is set up.
pub open spec fn pipeline_wired(c: PipelineConfigView, w: Workers) -> bool {
    &&& c.ci.len() > 0
    &&& forall|j: int| 0 <= j < c.ci.len() ==> c.ci[j].1 < ci_count(w)
    &&& c.ui < ui_count(w)
    &&& c.vcs < vcs_count(w)
}

proof fn lemma_ci_list_wired(cis: Seq<(CiId, CiType, PipelineId)>, pipeline_id: PipelineId, w: Workers)
    ensures
        ci_list(cis, pipeline_id, worker_idx(w)) matches Some(l) ==> forall|j: int|
            0 <= j < l.len() ==> l[j].1 < ci_count(w),
    decreases cis.len(),
{
    if cis.len() > 0 {
        lemma_ci_list_wired(cis.drop_last(), pipeline_id, w);
    }
}

proof fn lemma_pipelines_wired(projects: Seq<(String, ConfigValue)>, cis: Seq<(CiId, CiType, PipelineId)>, w: Workers)
    ensures
        spec_pipelines(projects, cis, worker_idx(w)) matches Ok(pls) ==> forall|i: int|
            0 <= i < pls.len() ==> pipeline_wired(#[trigger] pls[i], w),
    decreases projects.len(),
{
    if projects.len() > 0 {
        lemma_pipelines_wired(projects.drop_last(), cis, w);
        let ps = spec_pipelines(projects.drop_last(), cis, worker_idx(w));
        if ps is Ok {
            let pid = PipelineId(ps->Ok_0.len() as i32);
            lemma_ci_list_wired(cis, pid, w);
        }
    }
}

/// Every pipeline of a configuration that is accepted waits on at least
/// one CI job, and uses only workers that the configuration sets up.
pub proof fn lemma_built_pipelines_wired(main: ConfigValue)
    ensures
        spec_build(main) matches Ok((config, reg, w, pls)) ==> forall|i: int|
            0 <= i < pls.len() ==> pipeline_wired(#[trigger] pls[i], w),
{
    match value_get(main, "config"@) {
        Some(config) => match value_get(main, "projects"@) {
            Some(ConfigValue::Table(ps)) => match spec_register_all(ps@, config) {
                Ok(reg) => match spec_workers(config) {
                    Ok(w) => lemma_pipelines_wired(ps@, reg.cis, w),
                    _ => {},
                },
                _ => {},
            },
            _ => {},
        },
        None => {},
    }
}

/// The limits that [`within_limits`] checks: fewer than a million
/// projects, each defining fewer than 2^28 CI jobs of either kind, and a CI
/// budget below `i32::MAX - 1`. A configuration without a `projects`
/// table has nothing to number.
pub open spec fn spec_within_limits(config_main: ConfigValue) -> bool {
    match value_get(config_main, "projects"@) {
        Some(ConfigValue::Table(ps)) => {
            &&& ps@.len() < 1_000_000
            &&& forall|k: int| 0 <= k < ps@.len() ==> ci_bound(#[trigger] ps@[k].1, seq!["github"@, "status"@]) < 0x1000_0000
                && ci_bound(ps@[k].1, seq!["jenkins"@]) < 0x1000_0000
            &&& ci_budget(ps@) < 0x7fff_fffe
        },
        _ => true,
    }
}

/// Whether a configuration's projects are few enough to be numbered:
/// twice their number, and the CI jobs that they can define, fit below the
/// largest identifier.
pub fn within_limits(config_main: &ConfigValue) -> (r: bool)
    ensures
        r == spec_within_limits(*config_main),
        r ==> (value_get(*config_main, "projects"@) matches Some(ConfigValue::Table(ps)) ==> 2 * ps@.len() + 2 < i32::MAX
            && ci_budget(ps@) + 1 < i32::MAX),
{
    let entries = match config_main.get("projects") {
        Some(ConfigValue::Table(ps)) => ps,
        _ => return true,
    };
    if entries.len() >= 1_000_000 {
        return false;
    }
    let gs: &[&str] = &["github", "status"];
    let j: &[&str] = &["jenkins"];
    proof {
        assert(keys_view(gs@) =~= seq!["github"@, "status"@]);
        assert(keys_view(j@) =~= seq!["jenkins"@]);
        assert(entries@.take(0) =~= Seq::<(String, ConfigValue)>::empty());
    }
    let mut total: u64 = 0;
    let mut i: usize = 0;
    while i < entries.len()
        invariant
            i <= entries@.len(),
            keys_view(gs@) == seq!["github"@, "status"@],
            keys_view(j@) == seq!["jenkins"@],
            total == ci_budget(entries@.take(i as int)),
            total + 1 < i32::MAX,
            entries@.len() < 1_000_000,
            value_get(*config_main, "projects"@) == Some(ConfigValue::Table(*entries)),
            forall|k: int| 0 <= k < i ==> ci_bound(#[trigger] entries@[k].1, seq!["github"@, "status"@]) < 0x1000_0000
                && ci_bound(entries@[k].1, seq!["jenkins"@]) < 0x1000_0000,
        decreases entries.len() - i,
    {
        let def = &entries[i].1;
        let bs: u64 = match def.lookup(gs) {
            Some(ConfigValue::Array(a)) => a.len() as u64,
            _ => 1,
        };
        let bj: u64 = match def.lookup(j) {
            Some(ConfigValue::Array(a)) => a.len() as u64,
            _ => 1,
        };
        proof {
            assert(entries@.take(i + 1).drop_last() =~= entries@.take(i as int));
            assert(entries@.take(i + 1).last() == entries@[i as int]);
        }
        if bs >= 0x1000_0000 || bj >= 0x1000_0000 {
            proof {
                assert(!(ci_bound(entries@[i as int].1, seq!["github"@, "status"@]) < 0x1000_0000
                    && ci_bound(entries@[i as int].1, seq!["jenkins"@]) < 0x1000_0000));
            }
            return false;
        }
        let next = total + 2 * (bs + bj);
        if next >= 0x7fff_fffe {
            proof {
                lemma_ci_budget_prefix(entries@, i + 1);
            }
            return false;
        }
        total = next;
        i = i + 1;
    }
    proof {
        assert(entries@.take(i as int) =~= entries@);
    }
    true
}

#[verifier::external_type_specification]
#[verifier::external_body]
pub struct ExTomlValue(::toml::Value);

/// The configuration value that a TOML document stands for, if the text is
/// one.
pub uninterp spec fn toml_parse_result(text: Seq<char>) -> Option<ConfigValue>;

/// Turns a `toml::Value` into a [`ConfigValue`], one for one: each variant into
/// the variant of the same name (a float keeps no number, a datetime its
/// text), a table's entries in the order the table iterates them.
#[verifier::external_body]
fn from_toml_value(v: &::toml::Value) -> ConfigValue {
    match v {
        ::toml::Value::String(s) => ConfigValue::String(s.clone()),
        ::toml::Value::Integer(i) => ConfigValue::Integer(*i),
        ::toml::Value::Float(_) => ConfigValue::Float,
        ::toml::Value::Boolean(b) => ConfigValue::Boolean(*b),
        ::toml::Value::Datetime(d) => ConfigValue::Datetime(d.to_string()),
        ::toml::Value::Array(a) => ConfigValue::Array(a.iter().map(from_toml_value).collect()),
        ::toml::Value::Table(t) => ConfigValue::Table(t.iter().map(|(k, v)| (k.clone(), from_toml_value(v))).collect()),
    }
}

/// Calls `toml`'s `FromStr` for `toml::Value`, which parses a TOML
/// document into its table, and gives that table as a [`ConfigValue`]; `None`
/// when the text is not TOML. The result depends on the text alone.
#[verifier::external_body]
fn parse_toml(text: &str) -> (r: Option<ConfigValue>)
    ensures
        r == toml_parse_result(text@),
{
    text.parse::<::toml::Value>().ok().map(|v| from_toml_value(&v))
}

impl GithubBuilder {
    /// Read the whole configuration out of the text of a TOML file: `Parse`
    /// when it is not TOML, `TooManyProjects` when its projects cannot be
    /// numbered, and otherwise what [`GithubBuilder::build_from_toml`]
    /// makes of it.
    pub fn build_from_str(text: &str) -> (r: Result<GithubBuilder, GithubBuilderError>)
        ensures
            match toml_parse_result(text@) {
                None => r matches Err(GithubBuilderError::Parse),
                Some(v) => if !spec_within_limits(v) {
                    r matches Err(GithubBuilderError::TooManyProjects)
                } else {
                    match r {
                        Ok(b) => spec_build(v) matches Ok(p) && b.describes(p.0, p.1, p.2, p.3),
                        Err(e) => spec_build(v) == Err::<(ConfigValue, ProjectsView, Workers, Seq<PipelineConfigView>), _>(e),
                    }
                },
            },
    {
        let v = match parse_toml(text) {
            Some(v) => v,
            None => return Err(GithubBuilderError::Parse),
        };
        if !within_limits(&v) {
            return Err(GithubBuilderError::TooManyProjects);
        }
        GithubBuilder::build_from_toml(&v)
    }
}

} // verus!
