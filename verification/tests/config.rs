//! Reading configurations: the TOML tables, the environment, and the
//! description of the state store.

use aelita::ci::CiId;
use aelita::config::builder::{within_limits, GithubBuilder, GithubBuilderError};
use aelita::config::toml::{GitProjectArg, ProjectArg, SetupError, Ty};
use aelita::config::twelvef::{build_from_env, CiPlan, EnvError, GithubBuilderKey, VcsPlan};
use aelita::config::ConfigValue;
use aelita::db::{Builder, BuilderError};
use aelita::pipeline::PipelineId;
use aelita::ui::github::PipelineType;

fn s(x: &str) -> ConfigValue {
    ConfigValue::String(x.to_owned())
}

fn table(entries: Vec<(&str, ConfigValue)>) -> ConfigValue {
    ConfigValue::Table(entries.into_iter().map(|(k, v)| (k.to_owned(), v)).collect())
}

fn config_section() -> ConfigValue {
    table(vec![
        (
            "github",
            table(vec![
                ("listen", s("localhost:9001")),
                ("host", s("http://localhost:9011")),
                ("token", s("MY_PERSONAL_ACCESS_TOKEN")),
                ("user", s("AelitaBot")),
                ("secret", s("ME_SECRET_LOL")),
            ]),
        ),
        ("jenkins", table(vec![("listen", s("localhost:9002")), ("host", s("http://localhost:9012"))])),
        ("git", table(vec![("executable", s("git")), ("name", s("AelitaBot")), ("email", s("aelita@example.com"))])),
    ])
}

fn project(with_try: bool) -> ConfigValue {
    let mut entries = vec![
        ("github", table(vec![("owner", s("AelitaBot"))])),
        ("jenkins", table(vec![("token", s("TEST_TOKEN"))])),
        ("git", table(vec![("origin", s("git@github.com:AelitaBot/testp.git"))])),
    ];
    if with_try {
        entries.push(("try", table(vec![("git", table(vec![]))])));
    }
    table(entries)
}

#[test]
fn one_project_builds_one_pipeline() {
    let main = table(vec![("config", config_section()), ("projects", table(vec![("testp", project(false))]))]);
    let b = GithubBuilder::build_from_toml(&main).unwrap();
    assert!(b.github.is_some());
    assert!(b.github_status.is_none());
    assert!(b.jenkins.is_some());
    assert!(b.git.is_some());
    assert!(b.github_git.is_none());
    assert!(b.view.is_none());
    assert_eq!(b.db, "db.sqlite");
    assert_eq!(b.pipelines.0.len(), 1);
    let p = &b.pipelines.0[0];
    assert_eq!(p.pipeline_id, PipelineId(0));
    assert_eq!(p.ci, vec![(CiId(0), 0)]);
    assert_eq!(p.ui, 0);
    assert_eq!(p.vcs, 0);
    let (github, projects) = b.github.as_ref().unwrap();
    assert_eq!(github.listen, "localhost:9001");
    assert_eq!(github.db, "db.sqlite");
    let repo = &projects.0[0].0;
    assert_eq!(repo.owner, "AelitaBot");
    assert_eq!(repo.repo, "testp");
    assert_eq!(projects.0[0].1.pipeline_id, PipelineId(0));
    assert_eq!(projects.0[0].1.try_pipeline_id, None);
    let (_, jobs) = b.jenkins.as_ref().unwrap();
    let job = jobs.job_by_id(CiId(0)).unwrap();
    assert_eq!(job.name, "testp");
    assert_eq!(job.token, "TEST_TOKEN");
    let (git, repos) = b.git.as_ref().unwrap();
    assert_eq!(git.email, "aelita@example.com");
    let checkout = repos.repo_by_pipeline(PipelineId(0)).unwrap();
    assert_eq!(checkout.path, "cache/testp");
    assert_eq!(checkout.master_branch, "master");
    assert_eq!(checkout.staging_branch, "staging");
    assert!(checkout.push_to_master);
}

#[test]
fn try_section_adds_a_try_pipeline() {
    let main = table(vec![("config", config_section()), ("projects", table(vec![("testp", project(true))]))]);
    let b = GithubBuilder::build_from_toml(&main).unwrap();
    let (_, projects) = b.github.as_ref().unwrap();
    assert_eq!(projects.0[0].1.try_pipeline_id, Some(PipelineId(1)));
    let repo = projects.0[0].0.clone();
    let (found, ty) = projects.repo_by_pipeline(PipelineId(1)).unwrap();
    assert_eq!(found, repo);
    assert_eq!(ty, PipelineType::Try);
    let (_, repos) = b.git.as_ref().unwrap();
    assert!(repos.repo_by_pipeline(PipelineId(0)).unwrap().push_to_master);
    let trying = repos.repo_by_pipeline(PipelineId(1)).unwrap();
    assert_eq!(trying.staging_branch, "trying");
    assert!(!trying.push_to_master);
    let (_, jobs) = b.jenkins.as_ref().unwrap();
    assert_eq!(jobs.ids_by_job_name("testp"), vec![CiId(0), CiId(1)]);
    // The second pass numbers a project's pipelines by how many come
    // before it, and gives a project with a try section two descriptions.
    assert_eq!(b.pipelines.0.len(), 2);
    assert_eq!(b.pipelines.0[0].pipeline_id, PipelineId(0));
    assert_eq!(b.pipelines.0[1].pipeline_id, PipelineId(0));
    assert_eq!(b.pipelines.0[0].ci, vec![(CiId(0), 0)]);
}

#[test]
fn missing_sections_are_errors() {
    let main = table(vec![("projects", table(vec![]))]);
    assert_eq!(GithubBuilder::build_from_toml(&main).err(), Some(GithubBuilderError::NoConfig));
    let main = table(vec![("config", config_section())]);
    assert_eq!(GithubBuilder::build_from_toml(&main).err(), Some(GithubBuilderError::NoProjects));
    let main = table(vec![("config", config_section()), ("projects", s("x"))]);
    assert_eq!(GithubBuilder::build_from_toml(&main).err(), Some(GithubBuilderError::NoProjects));
    let main = table(vec![("config", table(vec![])), ("projects", table(vec![]))]);
    assert_eq!(GithubBuilder::build_from_toml(&main).err(), Some(GithubBuilderError::NoConfigGithub));
}

#[test]
fn bad_projects_are_errors() {
    let main = table(vec![("config", config_section()), ("projects", table(vec![("testp", s("x"))]))]);
    assert_eq!(
        GithubBuilder::build_from_toml(&main).err(),
        Some(GithubBuilderError::Project(SetupError::InvalidArg(ProjectArg::Project, Ty::Table)))
    );
    let no_origin = table(vec![
        ("github", table(vec![("owner", s("AelitaBot"))])),
        ("jenkins", table(vec![("token", s("TEST_TOKEN"))])),
        ("git", table(vec![])),
    ]);
    let main = table(vec![("config", config_section()), ("projects", table(vec![("testp", no_origin)]))]);
    assert_eq!(
        GithubBuilder::build_from_toml(&main).err(),
        Some(GithubBuilderError::GitProject(SetupError::NotFoundArg(GitProjectArg::Origin)))
    );
    let no_ci = table(vec![
        ("github", table(vec![("owner", s("AelitaBot"))])),
        ("git", table(vec![("origin", s("o"))])),
    ]);
    let main = table(vec![("config", config_section()), ("projects", table(vec![("testp", no_ci)]))]);
    assert_eq!(GithubBuilder::build_from_toml(&main).err(), Some(GithubBuilderError::Dangling));
}

#[test]
fn db_builder_from_str() {
    match Builder::from_str("db.sqlite") {
        Ok(Builder::Sqlite(p)) => assert_eq!(p, "db.sqlite"),
        _ => panic!("expected a SQLite file"),
    }
    assert!(matches!(Builder::from_str("postgresql://postgres@localhost/postgres"), Ok(Builder::Postgres(ref d, _)) if d == "postgresql://postgres@localhost/postgres"));
    assert!(matches!(Builder::from_str("postgresql:nonsense=="), Err(BuilderError::InvalidPostgresParams)));
}

fn env(pairs: &[(&str, &str)]) -> Vec<(String, String)> {
    pairs.iter().map(|(k, v)| (k.to_string(), v.to_string())).collect()
}

fn full_env() -> Vec<(String, String)> {
    env(&[
        ("UI_TYPE", "github"),
        ("PIPELINE_DB", "postgresql://postgres@localhost/postgres"),
        ("PROJECT_DB", "postgresql://postgres@localhost/postgres"),
        ("UI_GITHUB_DB", "postgresql://postgres@localhost/postgres"),
        ("UI_GITHUB_LISTEN", "localhost:9001"),
        ("UI_GITHUB_HOST", "http://localhost:9011"),
        ("UI_GITHUB_USER", "AelitaBot"),
        ("UI_GITHUB_TOKEN", "MY_PERSONAL_ACCESS_TOKEN"),
        ("UI_GITHUB_SECRET", "ME_SECRET_LOL"),
        ("CI_TYPE", "github_status"),
        ("CI_GITHUB_LISTEN", "localhost:9002"),
        ("CI_GITHUB_SECRET", "ME_SECRET_LOL"),
        ("VCS_TYPE", "github"),
        ("VCS_GITHUB_HOST", "http://localhost:9013"),
        ("VCS_GITHUB_TOKEN", "MY_PERSONAL_ACCESS_TOKEN"),
        ("VIEW_LISTEN", "localhost:9014"),
        ("VIEW_SECRET", "your mom"),
    ])
}

#[test]
fn environment_plan() {
    let plan = build_from_env(&full_env()).unwrap();
    assert!(matches!(plan.db, Builder::Postgres(..)));
    match &plan.ci {
        CiPlan::GithubStatus(l, s) => {
            assert_eq!(l, "localhost:9002");
            assert_eq!(s, "ME_SECRET_LOL");
        },
        _ => panic!("expected GitHub statuses"),
    }
    match &plan.vcs {
        VcsPlan::Github(h, _) => assert_eq!(h, "http://localhost:9013"),
        _ => panic!("expected GitHub's git"),
    }
    assert_eq!(plan.ui.listen, "localhost:9001");
    assert_eq!(plan.view_secret, "your mom");
}

#[test]
fn environment_errors() {
    let mut e = full_env();
    e[0].1 = "gitlab".to_owned();
    assert_eq!(build_from_env(&e).err(), Some(EnvError::NotGithub));
    let e: Vec<(String, String)> = full_env().into_iter().filter(|(k, _)| k != "VIEW_SECRET").collect();
    assert_eq!(build_from_env(&e).err(), Some(EnvError::MissingKey(GithubBuilderKey::ViewSecret)));
    let mut e = full_env();
    e[9].1 = "travis".to_owned();
    assert_eq!(build_from_env(&e).err(), Some(EnvError::InvalidKey(GithubBuilderKey::CiType)));
    let mut e = full_env();
    e[1].1 = "postgresql:nonsense==".to_owned();
    assert_eq!(build_from_env(&e).err(), Some(EnvError::DbConnect(BuilderError::InvalidPostgresParams)));
    assert_eq!(build_from_env(&vec![]).err(), Some(EnvError::MissingKey(GithubBuilderKey::UiType)));
}

#[test]
fn limits_on_numbering_projects() {
    assert!(within_limits(&table(vec![])));
    let project = table(vec![("jenkins", ConfigValue::Array(vec![s("a"), s("b")]))]);
    assert!(within_limits(&table(vec![("projects", table(vec![("p", project)]))])));
    let many: Vec<(&str, ConfigValue)> = (0..1_000_000).map(|_| ("p", table(vec![]))).collect();
    assert!(!within_limits(&table(vec![("projects", table(many))])));
}

#[test]
fn configuration_text_is_parsed_as_toml() {
    let text = r#"
[config.github]
listen = "localhost:9001"
host = "http://localhost:9011"
token = "MY_PERSONAL_ACCESS_TOKEN"
user = "AelitaBot"
secret = "ME_SECRET_LOL"

[config.jenkins]
listen = "localhost:9002"
host = "http://localhost:9012"

[config.git]
executable = "git"
name = "AelitaBot"
email = "aelita@example.com"

[projects.testp]
github = { owner = "AelitaBot" }
jenkins = { token = "TEST_TOKEN" }
git = { origin = "git@github.com:AelitaBot/testp.git" }
"#;
    let b = GithubBuilder::build_from_str(text).unwrap();
    assert_eq!(b.pipelines.0.len(), 1);
    let (_, jobs) = b.jenkins.as_ref().unwrap();
    assert_eq!(jobs.job_by_id(CiId(0)).unwrap().token, "TEST_TOKEN");
    assert_eq!(GithubBuilder::build_from_str("[config").err(), Some(GithubBuilderError::Parse));
    assert_eq!(GithubBuilder::build_from_str("[projects]").err(), Some(GithubBuilderError::NoConfig));
}
