//! Configuration from a TOML file: a `[config]` section describing the
//! workers, and a `[projects]` section with one table per repository.
//!
//! The file is read and parsed outside; this module takes the parsed table
//! and works out every worker's settings and every pipeline.

use crate::ci::{CiId, github_status, jenkins};
use crate::config::{PipelineConfig, ConfigValue, keys_view, value_get, value_lookup};
use crate::pipeline::PipelineId;
use crate::ui::github;
use crate::vcs::git;
use crate::vcs::github as github_git;
use crate::view::auth::{Auth, AuthView};
use vstd::prelude::*;
use vstd::string::*;

verus! {

/// The type of a configuration value.
#[derive(Clone, Copy, Debug, PartialEq, Eq, Structural)]
pub enum Ty {
    String,
    Integer,
    Float,
    Boolean,
    Datetime,
    Array,
    Table,
}

#[derive(Clone, Copy, Debug, PartialEq, Eq, Structural)]
pub enum GithubArg {
    Listen,
    Host,
    Token,
    User,
    Secret,
    Db,
}

#[derive(Clone, Copy, Debug, PartialEq, Eq, Structural)]
pub enum GithubStatusArg {
    Listen,
    Secret,
}

#[derive(Clone, Copy, Debug, PartialEq, Eq, Structural)]
pub enum JenkinsArg {
    Listen,
    Host,
    Token,
}

#[derive(Clone, Copy, Debug, PartialEq, Eq, Structural)]
pub enum GitArg {
    Executable,
    Name,
    Email,
}

#[derive(Clone, Copy, Debug, PartialEq, Eq, Structural)]
pub enum GithubGitArg {
    Host,
    Token,
}

#[derive(Clone, Copy, Debug, PartialEq, Eq, Structural)]
pub enum ViewArg {
    Listen,
    Secret,
    Auth,
    AuthType,
    AuthGithubAppId,
    AuthGithubAppSecret,
    AuthGithubOrganization,
}

#[derive(Clone, Copy, Debug, PartialEq, Eq, Structural)]
pub enum ProjectArg {
    Project,
}

#[derive(Clone, Copy, Debug, PartialEq, Eq, Structural)]
pub enum GithubProjectArg {
    Owner,
    Repo,
}

#[derive(Clone, Copy, Debug, PartialEq, Eq, Structural)]
pub enum GithubStatusProjectArg {
    Owner,
    Repo,
    Context,
}

#[derive(Clone, Copy, Debug, PartialEq, Eq, Structural)]
pub enum JenkinsProjectArg {
    Name,
    Token,
}

#[derive(Clone, Copy, Debug, PartialEq, Eq, Structural)]
pub enum GitProjectArg {
    Path,
    Origin,
    MasterBranch,
    StagingBranch,
}

#[derive(Clone, Copy, Debug, PartialEq, Eq, Structural)]
pub enum GithubGitProjectArg {
    Owner,
    Repo,
    MasterBranch,
    StagingBranch,
}

/// The view worker takes no per-project argument; no error names one.
#[derive(Clone, Copy, Debug, PartialEq, Eq, Structural)]
pub struct ViewProjectArg;

/// Why a worker or a project could not be set up: its section is missing
/// or not a table, or an argument is missing or of the wrong type.
#[derive(Debug, PartialEq, Eq, Structural)]
pub enum SetupError<T> {
    NotFoundConfig,
    NotTableConfig,
    NotFoundArg(T),
    InvalidArg(T, Ty),
}

impl<T> SetupError<T> {
    /// A description of the error.
    pub fn description(&self) -> (r: &'static str)
        ensures
            (*self is NotFoundConfig) ==> r@ == "Config not found"@,
            (*self is NotTableConfig) ==> r@ == "Config is not a table"@,
            (*self is NotFoundArg) ==> r@ == "Argument not found"@,
            (*self is InvalidArg) ==> r@ == "Argument of wrong type"@,
    {
        match self {
            SetupError::NotFoundConfig => "Config not found",
            SetupError::NotTableConfig => "Config is not a table",
            SetupError::NotFoundArg(_) => "Argument not found",
            SetupError::InvalidArg(_, _) => "Argument of wrong type",
        }
    }
}

pub open spec fn spec_ty_of(v: ConfigValue) -> Ty {
    match v {
        ConfigValue::String(_) => Ty::String,
        ConfigValue::Integer(_) => Ty::Integer,
        ConfigValue::Float => Ty::Float,
        ConfigValue::Boolean(_) => Ty::Boolean,
        ConfigValue::Datetime(_) => Ty::Datetime,
        ConfigValue::Array(_) => Ty::Array,
        ConfigValue::Table(_) => Ty::Table,
    }
}

/// The type of a configuration value.
pub fn ty_of(v: &ConfigValue) -> (r: Ty)
    ensures
        r == spec_ty_of(*v),
{
    match v {
        ConfigValue::String(_) => Ty::String,
        ConfigValue::Integer(_) => Ty::Integer,
        ConfigValue::Float => Ty::Float,
        ConfigValue::Boolean(_) => Ty::Boolean,
        ConfigValue::Datetime(_) => Ty::Datetime,
        ConfigValue::Array(_) => Ty::Array,
        ConfigValue::Table(_) => Ty::Table,
    }
}

/// What looking up an argument finds: no section, a section that is not a
/// table, no such argument, or its value.
pub enum ArgLookup {
    NoSection,
    NotTable,
    Missing,
    Found(ConfigValue),
}

pub open spec fn arg_lookup(config: ConfigValue, section: Seq<Seq<char>>, attr: Seq<char>) -> ArgLookup {
    match value_lookup(config, section) {
        None => ArgLookup::NoSection,
        Some(s) => if !(s is Table) {
            ArgLookup::NotTable
        } else {
            match value_get(s, attr) {
                None => ArgLookup::Missing,
                Some(v) => ArgLookup::Found(v),
            }
        },
    }
}

/// A string argument that must be present.
pub open spec fn spec_string_arg<T>(config: ConfigValue, section: Seq<Seq<char>>, attr: Seq<char>, arg: T) -> Result<
    Seq<char>,
    SetupError<T>,
> {
    spec_string_arg_or(config, section, attr, arg, Err(SetupError::NotFoundArg(arg)))
}

/// A string argument that takes `default` when absent.
pub open spec fn spec_string_arg_or<T>(
    config: ConfigValue,
    section: Seq<Seq<char>>,
    attr: Seq<char>,
    arg: T,
    default: Result<Seq<char>, SetupError<T>>,
) -> Result<Seq<char>, SetupError<T>> {
    match arg_lookup(config, section, attr) {
        ArgLookup::NoSection => Err(SetupError::NotFoundConfig),
        ArgLookup::NotTable => Err(SetupError::NotTableConfig),
        ArgLookup::Missing => default,
        ArgLookup::Found(ConfigValue::String(s)) => Ok(s@),
        ArgLookup::Found(v) => Err(SetupError::InvalidArg(arg, spec_ty_of(v))),
    }
}

/// Look up a string argument; `Ok(None)` when the section is a table
/// without the argument.
fn string_arg_opt<T: Copy>(config: &ConfigValue, section: &[&str], attr: &str, arg: T) -> (r: Result<
    Option<String>,
    SetupError<T>,
>)
    ensures
        match r {
            Ok(None) => arg_lookup(*config, keys_view(section@), attr@) is Missing,
            Ok(Some(s)) => !(arg_lookup(*config, keys_view(section@), attr@) is Missing)
                && spec_string_arg(*config, keys_view(section@), attr@, arg) == Ok::<Seq<char>, SetupError<T>>(s@),
            Err(e) => !(arg_lookup(*config, keys_view(section@), attr@) is Missing)
                && spec_string_arg(*config, keys_view(section@), attr@, arg) == Err::<Seq<char>, SetupError<T>>(e),
        },
{
    let s = match config.lookup(section) {
        Some(s) => s,
        None => return Err(SetupError::NotFoundConfig),
    };
    if !s.is_table() {
        return Err(SetupError::NotTableConfig);
    }
    match s.get(attr) {
        None => Ok(None),
        Some(ConfigValue::String(v)) => Ok(Some(v.clone())),
        Some(v) => Err(SetupError::InvalidArg(arg, ty_of(v))),
    }
}

/// A string argument that must be present.
fn string_arg<T: Copy>(config: &ConfigValue, section: &[&str], attr: &str, arg: T) -> (r: Result<String, SetupError<T>>)
    ensures
        match r {
            Ok(s) => spec_string_arg(*config, keys_view(section@), attr@, arg) == Ok::<Seq<char>, SetupError<T>>(s@),
            Err(e) => spec_string_arg(*config, keys_view(section@), attr@, arg) == Err::<Seq<char>, SetupError<T>>(e),
        },
{
    match string_arg_opt(config, section, attr, arg) {
        Ok(Some(s)) => Ok(s),
        Ok(None) => Err(SetupError::NotFoundArg(arg)),
        Err(e) => Err(e),
    }
}

/// A string argument that takes `default` when absent.
fn string_arg_or<T: Copy>(config: &ConfigValue, section: &[&str], attr: &str, arg: T, default: &str) -> (r: Result<
    String,
    SetupError<T>,
>)
    ensures
        match r {
            Ok(s) => spec_string_arg_or(*config, keys_view(section@), attr@, arg, Ok(default@))
                == Ok::<Seq<char>, SetupError<T>>(s@),
            Err(e) => spec_string_arg_or(*config, keys_view(section@), attr@, arg, Ok(default@))
                == Err::<Seq<char>, SetupError<T>>(e),
        },
{
    match string_arg_opt(config, section, attr, arg) {
        Ok(Some(s)) => Ok(s),
        Ok(None) => Ok(String::from_str(default)),
        Err(e) => Err(e),
    }
}

/// The text under `keys`, when it is a string.
pub open spec fn spec_lookup_str(config: ConfigValue, keys: Seq<Seq<char>>) -> Option<Seq<char>> {
    match value_lookup(config, keys) {
        Some(ConfigValue::String(s)) => Some(s@),
        _ => None,
    }
}

fn lookup_str<'a>(config: &'a ConfigValue, keys: &[&str]) -> (r: Option<&'a str>)
    ensures
        match r {
            Some(s) => spec_lookup_str(*config, keys_view(keys@)) == Some(s@),
            None => spec_lookup_str(*config, keys_view(keys@)) is None,
        },
{
    match config.lookup(keys) {
        Some(v) => v.as_str(),
        None => None,
    }
}

/// The database named by the top-level `db` key, `db.sqlite` by default.
pub open spec fn spec_default_db(config: ConfigValue) -> Seq<char> {
    match spec_lookup_str(config, seq!["db"@]) {
        Some(s) => s,
        None => "db.sqlite"@,
    }
}

pub fn default_db(config: &ConfigValue) -> (r: String)
    ensures
        r@ == spec_default_db(*config),
{
    let keys: &[&str] = &["db"];
    proof {
        assert(keys_view(keys@) =~= seq!["db"@]);
    }
    match lookup_str(config, keys) {
        Some(s) => String::from_str(s),
        None => String::from_str("db.sqlite"),
    }
}

/// Settings of the GitHub user-interface worker.
pub struct GithubSetup {
    pub listen: String,
    pub host: String,
    pub token: String,
    pub user: String,
    pub secret: String,
    pub db: String,
}

pub struct GithubSetupView {
    pub listen: Seq<char>,
    pub host: Seq<char>,
    pub token: Seq<char>,
    pub user: Seq<char>,
    pub secret: Seq<char>,
    pub db: Seq<char>,
}

impl View for GithubSetup {
    type V = GithubSetupView;

    open spec fn view(&self) -> GithubSetupView {
        GithubSetupView {
            listen: self.listen@,
            host: self.host@,
            token: self.token@,
            user: self.user@,
            secret: self.secret@,
            db: self.db@,
        }
    }
}

pub open spec fn spec_setup_github(config: ConfigValue) -> Result<GithubSetupView, SetupError<GithubArg>> {
    let g = seq!["github"@];
    match spec_string_arg(config, g, "listen"@, GithubArg::Listen) {
        Err(e) => Err(e),
        Ok(listen) => match spec_string_arg_or(config, g, "host"@, GithubArg::Host, Ok("https://api.github.com"@)) {
            Err(e) => Err(e),
            Ok(host) => match spec_string_arg(config, g, "token"@, GithubArg::Token) {
                Err(e) => Err(e),
                Ok(token) => match spec_string_arg(config, g, "user"@, GithubArg::User) {
                    Err(e) => Err(e),
                    Ok(user) => match spec_string_arg(config, g, "secret"@, GithubArg::Secret) {
                        Err(e) => Err(e),
                        Ok(secret) => match spec_string_arg_or(
                            config,
                            g,
                            "db"@,
                            GithubArg::Db,
                            Ok(spec_default_db(config)),
                        ) {
                            Err(e) => Err(e),
                            Ok(db) => Ok(GithubSetupView { listen, host, token, user, secret, db }),
                        },
                    },
                },
            },
        },
    }
}

/// The settings of the GitHub user-interface worker, from `[config.github]`.
pub fn setup_github(config: &ConfigValue) -> (r: Result<GithubSetup, SetupError<GithubArg>>)
    ensures
        match r {
            Ok(g) => spec_setup_github(*config) == Ok::<GithubSetupView, SetupError<GithubArg>>(g@),
            Err(e) => spec_setup_github(*config) == Err::<GithubSetupView, SetupError<GithubArg>>(e),
        },
{
    let g: &[&str] = &["github"];
    proof {
        assert(keys_view(g@) =~= seq!["github"@]);
    }
    let listen = match string_arg(config, g, "listen", GithubArg::Listen) {
        Ok(x) => x,
        Err(e) => return Err(e),
    };
    let host = match string_arg_or(config, g, "host", GithubArg::Host, "https://api.github.com") {
        Ok(x) => x,
        Err(e) => return Err(e),
    };
    let token = match string_arg(config, g, "token", GithubArg::Token) {
        Ok(x) => x,
        Err(e) => return Err(e),
    };
    let user = match string_arg(config, g, "user", GithubArg::User) {
        Ok(x) => x,
        Err(e) => return Err(e),
    };
    let secret = match string_arg(config, g, "secret", GithubArg::Secret) {
        Ok(x) => x,
        Err(e) => return Err(e),
    };
    let db = match string_arg_opt(config, g, "db", GithubArg::Db) {
        Ok(Some(x)) => x,
        Ok(None) => default_db(config),
        Err(e) => return Err(e),
    };
    Ok(GithubSetup { listen, host, token, user, secret, db })
}

/// Settings of the GitHub-status CI worker.
pub struct GithubStatusSetup {
    pub listen: String,
    pub secret: String,
}

pub open spec fn spec_setup_github_status(config: ConfigValue) -> Result<(Seq<char>, Seq<char>), SetupError<GithubStatusArg>> {
    let gs = seq!["github"@, "status"@];
    match spec_string_arg(config, gs, "listen"@, GithubStatusArg::Listen) {
        Err(e) => Err(e),
        Ok(listen) => match spec_string_arg_or(
            config,
            gs,
            "secret"@,
            GithubStatusArg::Secret,
            spec_string_arg(config, seq!["github"@], "secret"@, GithubStatusArg::Secret),
        ) {
            Err(e) => Err(e),
            Ok(secret) => Ok((listen, secret)),
        },
    }
}

/// The settings of the GitHub-status CI worker, from `[config.github.status]`;
/// the secret defaults to that of `[config.github]`.
pub fn setup_github_status(config: &ConfigValue) -> (r: Result<GithubStatusSetup, SetupError<GithubStatusArg>>)
    ensures
        match r {
            Ok(g) => spec_setup_github_status(*config) == Ok::<(Seq<char>, Seq<char>), SetupError<GithubStatusArg>>((g.listen@, g.secret@)),
            Err(e) => spec_setup_github_status(*config) == Err::<(Seq<char>, Seq<char>), SetupError<GithubStatusArg>>(e),
        },
{
    let gs: &[&str] = &["github", "status"];
    let g: &[&str] = &["github"];
    proof {
        assert(keys_view(gs@) =~= seq!["github"@, "status"@]);
        assert(keys_view(g@) =~= seq!["github"@]);
    }
    let listen = match string_arg(config, gs, "listen", GithubStatusArg::Listen) {
        Ok(x) => x,
        Err(e) => return Err(e),
    };
    let secret = match string_arg_opt(config, gs, "secret", GithubStatusArg::Secret) {
        Ok(Some(x)) => x,
        Ok(None) => match string_arg(config, g, "secret", GithubStatusArg::Secret) {
            Ok(x) => x,
            Err(e) => return Err(e),
        },
        Err(e) => return Err(e),
    };
    Ok(GithubStatusSetup { listen, secret })
}

/// Settings of the Jenkins CI worker.
pub struct JenkinsSetup {
    pub listen: String,
    pub host: String,
    pub auth: Option<(String, String)>,
}

/// An optional string at `keys`: absent is fine, another type is not.
pub open spec fn spec_optional_str(config: ConfigValue, keys: Seq<Seq<char>>) -> Result<Option<Seq<char>>, ()> {
    match value_lookup(config, keys) {
        None => Ok(None),
        Some(ConfigValue::String(s)) => Ok(Some(s@)),
        Some(_) => Err(()),
    }
}

pub open spec fn spec_setup_jenkins(config: ConfigValue) -> Result<
    (Seq<char>, Seq<char>, Option<(Seq<char>, Seq<char>)>),
    SetupError<JenkinsArg>,
> {
    match spec_optional_str(config, seq!["jenkins"@, "user"@]) {
        Err(_) => Err(SetupError::InvalidArg(JenkinsArg::Token, Ty::String)),
        Ok(user) => match spec_optional_str(config, seq!["jenkins"@, "token"@]) {
            Err(_) => Err(SetupError::InvalidArg(JenkinsArg::Token, Ty::String)),
            Ok(token) => {
                let auth = match (user, token) {
                    (Some(u), Some(t)) => Some((u, t)),
                    _ => None,
                };
                let j = seq!["jenkins"@];
                match spec_string_arg(config, j, "listen"@, JenkinsArg::Listen) {
                    Err(e) => Err(e),
                    Ok(listen) => match spec_string_arg(config, j, "host"@, JenkinsArg::Host) {
                        Err(e) => Err(e),
                        Ok(host) => Ok((listen, host, auth)),
                    },
                }
            },
        },
    }
}

fn optional_str(config: &ConfigValue, keys: &[&str]) -> (r: Result<Option<String>, ()>)
    ensures
        match r {
            Ok(Some(s)) => spec_optional_str(*config, keys_view(keys@)) == Ok::<Option<Seq<char>>, ()>(Some(s@)),
            Ok(None) => spec_optional_str(*config, keys_view(keys@)) == Ok::<Option<Seq<char>>, ()>(None),
            Err(_) => spec_optional_str(*config, keys_view(keys@)) is Err,
        },
{
    match config.lookup(keys) {
        Some(v) => match v.as_str() {
            Some(s) => Ok(Some(String::from_str(s))),
            None => Err(()),
        },
        None => Ok(None),
    }
}

pub open spec fn auth_pair_view(a: Option<(String, String)>) -> Option<(Seq<char>, Seq<char>)> {
    match a {
        Some((u, t)) => Some((u@, t@)),
        None => None,
    }
}

/// The settings of the Jenkins CI worker, from `[config.jenkins]`; it
/// authenticates only when both `user` and `token` are given.
pub fn setup_jenkins(config: &ConfigValue) -> (r: Result<JenkinsSetup, SetupError<JenkinsArg>>)
    ensures
        match r {
            Ok(j) => spec_setup_jenkins(*config) == Ok::<_, SetupError<JenkinsArg>>((j.listen@, j.host@, auth_pair_view(j.auth))),
            Err(e) => spec_setup_jenkins(*config) == Err::<(Seq<char>, Seq<char>, Option<(Seq<char>, Seq<char>)>), _>(e),
        },
{
    let ju: &[&str] = &["jenkins", "user"];
    let jt: &[&str] = &["jenkins", "token"];
    let j: &[&str] = &["jenkins"];
    proof {
        assert(keys_view(ju@) =~= seq!["jenkins"@, "user"@]);
        assert(keys_view(jt@) =~= seq!["jenkins"@, "token"@]);
        assert(keys_view(j@) =~= seq!["jenkins"@]);
    }
    let user = match optional_str(config, ju) {
        Ok(u) => u,
        Err(_) => return Err(SetupError::InvalidArg(JenkinsArg::Token, Ty::String)),
    };
    let token = match optional_str(config, jt) {
        Ok(t) => t,
        Err(_) => return Err(SetupError::InvalidArg(JenkinsArg::Token, Ty::String)),
    };
    let auth = match (user, token) {
        (Some(u), Some(t)) => Some((u, t)),
        _ => None,
    };
    let listen = match string_arg(config, j, "listen", JenkinsArg::Listen) {
        Ok(x) => x,
        Err(e) => return Err(e),
    };
    let host = match string_arg(config, j, "host", JenkinsArg::Host) {
        Ok(x) => x,
        Err(e) => return Err(e),
    };
    Ok(JenkinsSetup { listen, host, auth })
}

/// Settings of the git version-control worker.
pub struct GitSetup {
    pub executable: String,
    pub name: String,
    pub email: String,
}

pub open spec fn spec_setup_git(config: ConfigValue) -> Result<(Seq<char>, Seq<char>, Seq<char>), SetupError<GitArg>> {
    let g = seq!["git"@];
    match spec_string_arg_or(config, g, "executable"@, GitArg::Executable, Ok("git"@)) {
        Err(e) => Err(e),
        Ok(executable) => match spec_string_arg_or(
            config,
            g,
            "name"@,
            GitArg::Name,
            spec_string_arg(config, seq!["github"@], "user"@, GitArg::Name),
        ) {
            Err(e) => Err(e),
            Ok(name) => match spec_string_arg_or(
                config,
                g,
                "email"@,
                GitArg::Email,
                match spec_lookup_str(config, seq!["github"@, "user"@]) {
                    Some(u) => Ok(u + "@github.com"@),
                    None => Err(SetupError::NotFoundArg(GitArg::Email)),
                },
            ) {
                Err(e) => Err(e),
                Ok(email) => Ok((executable, name, email)),
            },
        },
    }
}

/// The settings of the git worker, from `[config.git]`; the name defaults to
/// the GitHub user, and the email to that user at github.com.
pub fn setup_git(config: &ConfigValue) -> (r: Result<GitSetup, SetupError<GitArg>>)
    ensures
        match r {
            Ok(g) => spec_setup_git(*config) == Ok::<_, SetupError<GitArg>>((g.executable@, g.name@, g.email@)),
            Err(e) => spec_setup_git(*config) == Err::<(Seq<char>, Seq<char>, Seq<char>), _>(e),
        },
{
    let g: &[&str] = &["git"];
    let gh: &[&str] = &["github"];
    let ghu: &[&str] = &["github", "user"];
    proof {
        assert(keys_view(g@) =~= seq!["git"@]);
        assert(keys_view(gh@) =~= seq!["github"@]);
        assert(keys_view(ghu@) =~= seq!["github"@, "user"@]);
    }
    let executable = match string_arg_or(config, g, "executable", GitArg::Executable, "git") {
        Ok(x) => x,
        Err(e) => return Err(e),
    };
    let name = match string_arg_opt(config, g, "name", GitArg::Name) {
        Ok(Some(x)) => x,
        Ok(None) => match string_arg(config, gh, "user", GitArg::Name) {
            Ok(x) => x,
            Err(e) => return Err(e),
        },
        Err(e) => return Err(e),
    };
    let email = match string_arg_opt(config, g, "email", GitArg::Email) {
        Ok(Some(x)) => x,
        Ok(None) => match lookup_str(config, ghu) {
            Some(u) => {
                let mut e = String::from_str(u);
                e.append("@github.com");
                e
            },
            None => return Err(SetupError::NotFoundArg(GitArg::Email)),
        },
        Err(e) => return Err(e),
    };
    Ok(GitSetup { executable, name, email })
}

/// Settings of the GitHub version-control worker.
pub struct GithubGitSetup {
    pub host: String,
    pub token: String,
}

pub open spec fn spec_setup_github_git(config: ConfigValue) -> Result<(Seq<char>, Seq<char>), SetupError<GithubGitArg>> {
    let gg = seq!["github"@, "git"@];
    let g = seq!["github"@];
    match spec_string_arg_or(
        config,
        gg,
        "host"@,
        GithubGitArg::Host,
        spec_string_arg_or(config, g, "host"@, GithubGitArg::Host, Ok("https://api.github.com"@)),
    ) {
        Err(e) => Err(e),
        Ok(host) => match spec_string_arg_or(
            config,
            gg,
            "token"@,
            GithubGitArg::Token,
            spec_string_arg(config, g, "token"@, GithubGitArg::Token),
        ) {
            Err(e) => Err(e),
            Ok(token) => Ok((host, token)),
        },
    }
}

/// The settings of the GitHub version-control worker, from
/// `[config.github.git]`, each defaulting to that of `[config.github]`.
pub fn setup_github_git(config: &ConfigValue) -> (r: Result<GithubGitSetup, SetupError<GithubGitArg>>)
    ensures
        match r {
            Ok(g) => spec_setup_github_git(*config) == Ok::<_, SetupError<GithubGitArg>>((g.host@, g.token@)),
            Err(e) => spec_setup_github_git(*config) == Err::<(Seq<char>, Seq<char>), _>(e),
        },
{
    let gg: &[&str] = &["github", "git"];
    let g: &[&str] = &["github"];
    proof {
        assert(keys_view(gg@) =~= seq!["github"@, "git"@]);
        assert(keys_view(g@) =~= seq!["github"@]);
    }
    let host = match string_arg_opt(config, gg, "host", GithubGitArg::Host) {
        Ok(Some(x)) => x,
        Ok(None) => match string_arg_or(config, g, "host", GithubGitArg::Host, "https://api.github.com") {
            Ok(x) => x,
            Err(e) => return Err(e),
        },
        Err(e) => return Err(e),
    };
    let token = match string_arg_opt(config, gg, "token", GithubGitArg::Token) {
        Ok(Some(x)) => x,
        Ok(None) => match string_arg(config, g, "token", GithubGitArg::Token) {
            Ok(x) => x,
            Err(e) => return Err(e),
        },
        Err(e) => return Err(e),
    };
    Ok(GithubGitSetup { host, token })
}

/// Settings of the view worker.
pub struct ViewSetup {
    pub listen: String,
    pub db: String,
    pub secret: String,
    pub auth: Auth,
}

pub open spec fn spec_view_auth(config: ConfigValue) -> Result<AuthView, SetupError<ViewArg>> {
    match value_lookup(config, seq!["view"@, "auth"@]) {
        None => Ok(AuthView::NoAuth),
        Some(a) => if !(a is Table) {
            Err(SetupError::InvalidArg(ViewArg::Auth, Ty::Table))
        } else {
            match spec_lookup_str(a, seq!["type"@]) {
                None => Ok(AuthView::NoAuth),
                Some(t) => if t == "github"@ {
                    let va = seq!["view"@, "auth"@];
                    match spec_string_arg(config, va, "app_id"@, ViewArg::AuthGithubAppId) {
                        Err(e) => Err(e),
                        Ok(app_id) => match spec_string_arg(config, va, "app_secret"@, ViewArg::AuthGithubAppSecret) {
                            Err(e) => Err(e),
                            Ok(app_secret) => match spec_string_arg(
                                config,
                                va,
                                "organization"@,
                                ViewArg::AuthGithubOrganization,
                            ) {
                                Err(e) => Err(e),
                                Ok(org) => Ok(AuthView::Github(app_id, app_secret, org)),
                            },
                        },
                    }
                } else {
                    Err(SetupError::InvalidArg(ViewArg::AuthType, Ty::String))
                },
            }
        },
    }
}

pub open spec fn spec_setup_view(config: ConfigValue) -> Result<
    (Seq<char>, Seq<char>, Seq<char>, AuthView),
    SetupError<ViewArg>,
> {
    match spec_view_auth(config) {
        Err(e) => Err(e),
        Ok(auth) => match spec_string_arg(config, seq!["view"@], "listen"@, ViewArg::Listen) {
            Err(e) => Err(e),
            Ok(listen) => match spec_string_arg(config, seq!["view"@], "secret"@, ViewArg::Secret) {
                Err(e) => Err(e),
                Ok(secret) => Ok((listen, spec_default_db(config), secret, auth)),
            },
        },
    }
}

fn view_auth(config: &ConfigValue) -> (r: Result<Auth, SetupError<ViewArg>>)
    ensures
        match r {
            Ok(a) => spec_view_auth(*config) == Ok::<AuthView, SetupError<ViewArg>>(a@),
            Err(e) => spec_view_auth(*config) == Err::<AuthView, SetupError<ViewArg>>(e),
        },
{
    let va: &[&str] = &["view", "auth"];
    let ty: &[&str] = &["type"];
    proof {
        assert(keys_view(va@) =~= seq!["view"@, "auth"@]);
        assert(keys_view(ty@) =~= seq!["type"@]);
    }
    let auth = match config.lookup(va) {
        None => return Ok(Auth::NoAuth),
        Some(a) => a,
    };
    if !auth.is_table() {
        return Err(SetupError::InvalidArg(ViewArg::Auth, Ty::Table));
    }
    match lookup_str(auth, ty) {
        None => Ok(Auth::NoAuth),
        Some(t) => {
            proof {
                reveal_strlit("github");
            }
            if crate::util::str_equal(t, "github") {
                let app_id = match string_arg(config, va, "app_id", ViewArg::AuthGithubAppId) {
                    Ok(x) => x,
                    Err(e) => return Err(e),
                };
                let app_secret = match string_arg(config, va, "app_secret", ViewArg::AuthGithubAppSecret) {
                    Ok(x) => x,
                    Err(e) => return Err(e),
                };
                let org = match string_arg(config, va, "organization", ViewArg::AuthGithubOrganization) {
                    Ok(x) => x,
                    Err(e) => return Err(e),
                };
                Ok(Auth::Github(app_id, app_secret, org))
            } else {
                Err(SetupError::InvalidArg(ViewArg::AuthType, Ty::String))
            }
        },
    }
}

/// The settings of the view worker, from `[config.view]`; its
/// authentication comes from `[config.view.auth]`, none by default.
pub fn setup_view(config: &ConfigValue) -> (r: Result<ViewSetup, SetupError<ViewArg>>)
    ensures
        match r {
            Ok(v) => spec_setup_view(*config) == Ok::<_, SetupError<ViewArg>>((v.listen@, v.db@, v.secret@, v.auth@)),
            Err(e) => spec_setup_view(*config) == Err::<(Seq<char>, Seq<char>, Seq<char>, AuthView), _>(e),
        },
{
    let v: &[&str] = &["view"];
    proof {
        assert(keys_view(v@) =~= seq!["view"@]);
    }
    let auth = match view_auth(config) {
        Ok(a) => a,
        Err(e) => return Err(e),
    };
    let listen = match string_arg(config, v, "listen", ViewArg::Listen) {
        Ok(x) => x,
        Err(e) => return Err(e),
    };
    let db = default_db(config);
    let secret = match string_arg(config, v, "secret", ViewArg::Secret) {
        Ok(x) => x,
        Err(e) => return Err(e),
    };
    Ok(ViewSetup { listen, db, secret, auth })
}

// ----- Association lists, as the per-worker project tables are kept.

/// Index of the first pair with key `k`.
pub open spec fn first_key<K, V>(s: Seq<(K, V)>, k: K) -> Option<int> {
    if exists|i: int| 0 <= i < s.len() && s[i].0 == k {
        Some(choose|i: int| 0 <= i < s.len() && s[i].0 == k && forall|j: int| 0 <= j < i ==> s[j].0 != k)
    } else {
        None
    }
}

/// The value of the first pair with key `k`.
pub open spec fn assoc_get<K, V>(s: Seq<(K, V)>, k: K) -> Option<V> {
    match first_key(s, k) {
        Some(i) => Some(s[i].1),
        None => None,
    }
}

/// Map `k` to `v`, replacing the first pair with key `k` if there is one.
pub open spec fn assoc_insert<K, V>(s: Seq<(K, V)>, k: K, v: V) -> Seq<(K, V)> {
    match first_key(s, k) {
        Some(i) => s.update(i, (k, v)),
        None => s.push((k, v)),
    }
}

pub proof fn lemma_first_key_found<K, V>(s: Seq<(K, V)>, k: K, i: int)
    requires
        0 <= i < s.len(),
        s[i].0 == k,
        forall|j: int| 0 <= j < i ==> s[j].0 != k,
    ensures
        first_key(s, k) == Some(i),
{
    let c = choose|c: int| 0 <= c < s.len() && s[c].0 == k && forall|j: int| 0 <= j < c ==> s[j].0 != k;
    assert(0 <= c < s.len() && s[c].0 == k && forall|j: int| 0 <= j < c ==> s[j].0 != k);
    if c < i {
        assert(s[c].0 != k);
    }
    if c > i {
        assert(s[i].0 != k);
    }
}

pub proof fn lemma_first_key_absent<K, V>(s: Seq<(K, V)>, k: K)
    requires
        forall|j: int| 0 <= j < s.len() ==> s[j].0 != k,
    ensures
        first_key(s, k) is None,
{
}

/// Whether `first_key` finds `k` at `i`, or nowhere.
proof fn lemma_first_key_spec<K, V>(s: Seq<(K, V)>, k: K)
    ensures
        match first_key(s, k) {
            Some(i) => 0 <= i < s.len() && s[i].0 == k && forall|j: int| 0 <= j < i ==> s[j].0 != k,
            None => forall|j: int| 0 <= j < s.len() ==> s[j].0 != k,
        },
{
    if exists|i: int| 0 <= i < s.len() && s[i].0 == k {
        let i0 = choose|i: int| 0 <= i < s.len() && s[i].0 == k;
        lemma_least_index(s, k, i0);
    }
}

proof fn lemma_least_index<K, V>(s: Seq<(K, V)>, k: K, i: int)
    requires
        0 <= i < s.len(),
        s[i].0 == k,
    ensures
        exists|c: int| 0 <= c < s.len() && s[c].0 == k && forall|j: int| 0 <= j < c ==> s[j].0 != k,
    decreases i,
{
    if exists|j: int| 0 <= j < i && s[j].0 == k {
        let j = choose|j: int| 0 <= j < i && s[j].0 == k;
        lemma_least_index(s, k, j);
    } else {
        assert(forall|j: int| 0 <= j < i ==> s[j].0 != k);
    }
}

/// Mapping `k` to `v` makes `k` give `v`, and leaves every other key as it
/// was.
pub proof fn lemma_assoc_insert_get<K, V>(s: Seq<(K, V)>, k: K, v: V, k2: K)
    ensures
        assoc_get(assoc_insert(s, k, v), k) == Some(v),
        k2 != k ==> assoc_get(assoc_insert(s, k, v), k2) == assoc_get(s, k2),
{
    lemma_first_key_spec(s, k);
    lemma_first_key_spec(s, k2);
    let t = assoc_insert(s, k, v);
    match first_key(s, k) {
        Some(i) => {
            lemma_first_key_found(t, k, i);
        },
        None => {
            lemma_first_key_found(t, k, s.len() as int);
        },
    }
    if k2 != k {
        match first_key(s, k2) {
            Some(j) => {
                lemma_first_key_found(t, k2, j);
            },
            None => {
                lemma_first_key_absent(t, k2);
            },
        }
    }
}

/// Adding `(k, v)` only when `k` has no entry keeps an earlier entry for
/// `k`, and leaves every other key as it was.
pub proof fn lemma_assoc_insert_absent_get<K, V>(s: Seq<(K, V)>, k: K, v: V, k2: K)
    ensures
        assoc_get(assoc_insert_absent(s, k, v), k) == match assoc_get(s, k) {
            Some(x) => Some(x),
            None => Some(v),
        },
        k2 != k ==> assoc_get(assoc_insert_absent(s, k, v), k2) == assoc_get(s, k2),
{
    lemma_first_key_spec(s, k);
    lemma_first_key_spec(s, k2);
    let t = assoc_insert_absent(s, k, v);
    if first_key(s, k) is None {
        lemma_first_key_found(t, k, s.len() as int);
        if k2 != k {
            match first_key(s, k2) {
                Some(j) => {
                    lemma_first_key_found(t, k2, j);
                },
                None => {
                    lemma_first_key_absent(t, k2);
                },
            }
        }
    }
}

// ----- The pipelines.

pub struct PipelineConfigView {
    pub pipeline_id: PipelineId,
    pub ci: Seq<(CiId, usize)>,
    pub ui: usize,
    pub vcs: usize,
}

impl View for PipelineConfig {
    type V = PipelineConfigView;

    open spec fn view(&self) -> PipelineConfigView {
        PipelineConfigView { pipeline_id: self.pipeline_id, ci: self.ci@, ui: self.ui, vcs: self.vcs }
    }
}

/// Every pipeline, in the order of the projects.
pub struct StaticPipelinesConfig(pub Vec<PipelineConfig>);

pub open spec fn pipelines_view(s: Seq<PipelineConfig>) -> Seq<PipelineConfigView> {
    s.map_values(|c: PipelineConfig| c@)
}

pub open spec fn has_ci(c: PipelineConfigView, id: CiId) -> bool {
    exists|j: int| 0 <= j < c.ci.len() && c.ci[j].0 == id
}

impl StaticPipelinesConfig {
    /// No pipelines.
    pub fn new() -> (r: StaticPipelinesConfig)
        ensures
            r.0@.len() == 0,
    {
        StaticPipelinesConfig(Vec::new())
    }

    /// The first pipeline with identifier `id`.
    pub fn by_pipeline_id(&self, id: PipelineId) -> (r: Option<PipelineConfig>)
        ensures
            match r {
                Some(c) => exists|i: int|
                    0 <= i < self.0@.len() && self.0@[i].pipeline_id == id && c@ == self.0@[i]@
                        && forall|j: int| 0 <= j < i ==> self.0@[j].pipeline_id != id,
                None => forall|i: int| 0 <= i < self.0@.len() ==> self.0@[i].pipeline_id != id,
            },
    {
        let mut i: usize = 0;
        while i < self.0.len()
            invariant
                i <= self.0.len(),
                forall|j: int| 0 <= j < i ==> self.0@[j].pipeline_id != id,
            decreases self.0.len() - i,
        {
            if self.0[i].pipeline_id == id {
                let r = self.0[i].clone();
                proof {
                    assert(r@ == self.0@[i as int]@);
                }
                return Some(r);
            }
            i = i + 1;
        }
        None
    }

    /// The first pipeline with CI job `id`.
    pub fn by_ci_id(&self, id: CiId) -> (r: Option<PipelineConfig>)
        ensures
            match r {
                Some(c) => exists|i: int|
                    0 <= i < self.0@.len() && has_ci(self.0@[i]@, id) && c@ == self.0@[i]@
                        && forall|j: int| 0 <= j < i ==> !has_ci(#[trigger] self.0@[j]@, id),
                None => forall|i: int| 0 <= i < self.0@.len() ==> !has_ci(#[trigger] self.0@[i]@, id),
            },
    {
        let mut i: usize = 0;
        while i < self.0.len()
            invariant
                i <= self.0.len(),
                forall|j: int| 0 <= j < i ==> !has_ci(#[trigger] self.0@[j]@, id),
            decreases self.0.len() - i,
        {
            let cfg = &self.0[i];
            let mut k: usize = 0;
            while k < cfg.ci.len()
                invariant
                    i < self.0.len(),
                    k <= cfg.ci.len(),
                    cfg == self.0@[i as int],
                    forall|j: int| 0 <= j < k ==> cfg.ci@[j].0 != id,
                    forall|j: int| 0 <= j < i ==> !has_ci(#[trigger] self.0@[j]@, id),
                decreases cfg.ci.len() - k,
            {
                if cfg.ci[k].0 == id {
                    proof {
                        assert(self.0@[i as int]@.ci[k as int].0 == id);
                        assert(has_ci(self.0@[i as int]@, id));
                    }
                    let r = cfg.clone();
                    proof {
                        assert(r@ == self.0@[i as int]@);
                    }
                    return Some(r);
                }
                k = k + 1;
            }
            proof {
                assert(!has_ci(self.0@[i as int]@, id));
            }
            i = i + 1;
        }
        None
    }

    /// The number of pipelines.
    pub fn len(&self) -> (r: usize)
        ensures
            r == self.0@.len(),
    {
        self.0.len()
    }
}

// ----- The GitHub user interface's projects.

pub open spec fn spec_github_project(name: Seq<char>, config: ConfigValue, def: ConfigValue) -> Result<
    github::RepoView,
    SetupError<GithubProjectArg>,
> {
    let g = seq!["github"@];
    match spec_string_arg_or(
        config,
        g,
        "owner"@,
        GithubProjectArg::Owner,
        spec_string_arg(def, g, "owner"@, GithubProjectArg::Owner),
    ) {
        Err(e) => Err(e),
        Ok(owner) => match spec_string_arg_or(def, g, "repo"@, GithubProjectArg::Repo, Ok(name)) {
            Err(e) => Err(e),
            Ok(repo) => Ok(github::RepoView { owner, repo }),
        },
    }
}

/// Whether a project also has a pipeline that only tries pull requests.
pub open spec fn spec_has_try(def: ConfigValue) -> bool {
    value_lookup(def, seq!["try"@]) is Some
}

pub fn has_try(def: &ConfigValue) -> (r: bool)
    ensures
        r == spec_has_try(*def),
{
    let t: &[&str] = &["try"];
    proof {
        assert(keys_view(t@) =~= seq!["try"@]);
    }
    def.lookup(t).is_some()
}

/// The pipelines of each GitHub repository.
pub struct StaticGithubProjectsConfig(pub Vec<(github::Repo, github::RepoPipelines)>);

impl View for StaticGithubProjectsConfig {
    type V = Seq<(github::RepoView, github::RepoPipelines)>;

    open spec fn view(&self) -> Seq<(github::RepoView, github::RepoPipelines)> {
        self.0@.map_values(|p: (github::Repo, github::RepoPipelines)| (p.0@, p.1))
    }
}

fn same_github_repo(a: &github::Repo, b: &github::Repo) -> (r: bool)
    ensures
        r == (a@ == b@),
{
    a.owner == b.owner && a.repo == b.repo
}

impl StaticGithubProjectsConfig {
    /// No projects.
    pub fn new() -> (r: StaticGithubProjectsConfig)
        ensures
            r@.len() == 0,
    {
        let r = StaticGithubProjectsConfig(Vec::new());
        proof {
            assert(r@ =~= Seq::<(github::RepoView, github::RepoPipelines)>::empty());
        }
        r
    }

    fn find(&self, repo: &github::Repo) -> (r: Option<usize>)
        ensures
            match r {
                Some(i) => i < self@.len() && first_key(self@, repo@) == Some(i as int),
                None => first_key(self@, repo@) is None,
            },
    {
        let mut i: usize = 0;
        while i < self.0.len()
            invariant
                i <= self.0.len(),
                forall|j: int| 0 <= j < i ==> self@[j].0 != repo@,
            decreases self.0.len() - i,
        {
            if same_github_repo(&self.0[i].0, repo) {
                proof {
                    lemma_first_key_found(self@, repo@, i as int);
                }
                return Some(i);
            }
            i = i + 1;
        }
        proof {
            lemma_first_key_absent(self@, repo@);
        }
        None
    }

    /// Add the project `name` defined by `def`, whose pipeline is
    /// `pipeline_id` (and whose try pipeline, if any, the next one).
    pub fn add_project(&mut self, name: &str, config: &ConfigValue, def: &ConfigValue, pipeline_id: PipelineId) -> (r: Result<
        (),
        SetupError<GithubProjectArg>,
    >)
        requires
            pipeline_id.0 < i32::MAX,
        ensures
            match r {
                Ok(()) => spec_github_project(name@, *config, *def) matches Ok(repo) && final(self)@ == assoc_insert(
                    old(self)@,
                    repo,
                    github::RepoPipelines {
                        pipeline_id,
                        try_pipeline_id: if spec_has_try(*def) {
                            Some(PipelineId((pipeline_id.0 + 1) as i32))
                        } else {
                            None
                        },
                    },
                ),
                Err(e) => spec_github_project(name@, *config, *def) == Err::<github::RepoView, _>(e)
                    && final(self)@ == old(self)@,
            },
    {
        let g: &[&str] = &["github"];
        proof {
            assert(keys_view(g@) =~= seq!["github"@]);
        }
        let owner = match string_arg_opt(config, g, "owner", GithubProjectArg::Owner) {
            Ok(Some(x)) => x,
            Ok(None) => match string_arg(def, g, "owner", GithubProjectArg::Owner) {
                Ok(x) => x,
                Err(e) => return Err(e),
            },
            Err(e) => return Err(e),
        };
        let repo = match string_arg_or(def, g, "repo", GithubProjectArg::Repo, name) {
            Ok(x) => x,
            Err(e) => return Err(e),
        };
        let repo = github::Repo { owner, repo };
        let pipelines = github::RepoPipelines {
            pipeline_id,
            try_pipeline_id: if has_try(def) {
                Some(PipelineId(pipeline_id.0 + 1))
            } else {
                None
            },
        };
        let ghost old_v = self@;
        let ghost rv = repo@;
        match self.find(&repo) {
            Some(i) => {
                self.0.set(i, (repo, pipelines));
                proof {
                    assert(self@ =~= old_v.update(i as int, (rv, pipelines)));
                }
            },
            None => {
                self.0.push((repo, pipelines));
                proof {
                    assert(self@ =~= old_v.push((rv, pipelines)));
                }
            },
        }
        Ok(())
    }

    /// The pipelines of a repository.
    pub fn pipelines_by_repo(&self, repo: &github::Repo) -> (r: Option<github::RepoPipelines>)
        ensures
            r == assoc_get(self@, repo@),
    {
        match self.find(repo) {
            Some(i) => Some(self.0[i].1),
            None => None,
        }
    }

    /// The repository of a pipeline, and whether it is the one that lands
    /// pull requests or the one that tries them.
    pub fn repo_by_pipeline(&self, pipeline_id: PipelineId) -> (r: Option<(github::Repo, github::PipelineType)>)
        ensures
            match r {
                Some((repo, ty)) => exists|i: int|
                    0 <= i < self@.len() && repo@ == self@[i].0 && (forall|j: int|
                        0 <= j < i ==> self@[j].1.pipeline_id != pipeline_id && self@[j].1.try_pipeline_id
                            != Some(pipeline_id)) && if self@[i].1.pipeline_id == pipeline_id {
                        ty == github::PipelineType::Stage
                    } else {
                        self@[i].1.try_pipeline_id == Some(pipeline_id) && ty == github::PipelineType::Try
                    },
                None => forall|j: int|
                    0 <= j < self@.len() ==> self@[j].1.pipeline_id != pipeline_id && self@[j].1.try_pipeline_id
                        != Some(pipeline_id),
            },
    {
        let mut i: usize = 0;
        while i < self.0.len()
            invariant
                i <= self.0.len(),
                forall|j: int|
                    0 <= j < i ==> self@[j].1.pipeline_id != pipeline_id && self@[j].1.try_pipeline_id != Some(
                        pipeline_id,
                    ),
            decreases self.0.len() - i,
        {
            let pipelines = self.0[i].1;
            if pipelines.pipeline_id == pipeline_id {
                let repo = self.0[i].0.clone();
                proof {
                    assert(repo@ == self@[i as int].0);
                    assert(self@[i as int].1 == pipelines);
                }
                return Some((repo, github::PipelineType::Stage));
            }
            if pipelines.try_pipeline_id == Some(pipeline_id) {
                let repo = self.0[i].0.clone();
                proof {
                    assert(repo@ == self@[i as int].0);
                    assert(self@[i as int].1 == pipelines);
                }
                return Some((repo, github::PipelineType::Try));
            }
            i = i + 1;
        }
        None
    }
}

// ----- CI jobs, and which pipeline each belongs to.

/// Which kind of CI worker runs a CI job.
#[derive(Clone, Copy, Debug, PartialEq, Eq, Structural)]
pub enum CiType {
    Jenkins,
    GithubStatus,
}

/// The pipeline of each CI job, in the order the jobs were numbered.
pub struct CiPipelines(pub Vec<(CiId, CiType, PipelineId)>);

impl CiPipelines {
    pub fn new() -> (r: CiPipelines)
        ensures
            r.0@.len() == 0,
    {
        CiPipelines(Vec::new())
    }
}

/// The table entries of `n` new CI jobs, numbered from `start`.
pub open spec fn ci_entries(start: int, n: int, ty: CiType, pipeline_id: PipelineId) -> Seq<(CiId, CiType, PipelineId)> {
    Seq::new(n as nat, |k: int| (CiId((start + k) as i32), ty, pipeline_id))
}

/// At most how many CI jobs a project section defines under `keys`: the
/// length of an array, or one.
pub open spec fn ci_bound(def: ConfigValue, keys: Seq<Seq<char>>) -> int {
    match value_lookup(def, keys) {
        Some(ConfigValue::Array(a)) => a@.len() as int,
        _ => 1,
    }
}

/// The owner and name of the repository whose statuses a project's CI jobs follow.
pub open spec fn spec_status_repo(name: Seq<char>, config: ConfigValue, def: ConfigValue) -> Result<
    (Seq<char>, Seq<char>),
    SetupError<GithubStatusProjectArg>,
> {
    let g = seq!["github"@];
    match spec_string_arg_or(
        def,
        g,
        "owner"@,
        GithubStatusProjectArg::Owner,
        spec_string_arg(config, g, "owner"@, GithubStatusProjectArg::Owner),
    ) {
        Err(e) => Err(e),
        Ok(owner) => match spec_string_arg_or(def, g, "repo"@, GithubStatusProjectArg::Repo, Ok(name)) {
            Err(e) => Err(e),
            Ok(repo) => Ok((owner, repo)),
        },
    }
}

/// The status contexts of an array of them, or the first error.
pub open spec fn spec_status_array(name: Seq<char>, config: ConfigValue, def: ConfigValue, a: Seq<ConfigValue>) -> Result<
    Seq<Seq<char>>,
    SetupError<GithubStatusProjectArg>,
>
    decreases a.len(),
{
    if a.len() == 0 {
        Ok(seq![])
    } else {
        match a[0] {
            ConfigValue::String(c) => match spec_status_repo(name, config, def) {
                Err(e) => Err(e),
                Ok(_) => match spec_status_array(name, config, def, a.drop_first()) {
                    Err(e) => Err(e),
                    Ok(cs) => Ok(seq![c@] + cs),
                },
            },
            _ => Err(SetupError::InvalidArg(GithubStatusProjectArg::Context, Ty::String)),
        }
    }
}

/// The status contexts that a project's `github.status` names, or why it
/// cannot be set up.
pub open spec fn spec_status_contexts(name: Seq<char>, config: ConfigValue, def: ConfigValue) -> Result<
    Seq<Seq<char>>,
    SetupError<GithubStatusProjectArg>,
> {
    match value_lookup(def, seq!["github"@, "status"@]) {
        None => Err(SetupError::NotFoundConfig),
        Some(ConfigValue::String(c)) => match spec_status_repo(name, config, def) {
            Err(e) => Err(e),
            Ok(_) => Ok(seq![c@]),
        },
        Some(ConfigValue::Array(a)) => spec_status_array(name, config, def, a@),
        Some(_) => Err(SetupError::NotTableConfig),
    }
}

pub open spec fn status_repo_fields(name: Seq<char>, config: ConfigValue, def: ConfigValue) -> (Seq<char>, Seq<char>) {
    match spec_status_repo(name, config, def) {
        Ok(p) => p,
        Err(_) => (seq![], seq![]),
    }
}

/// The entries of new CI jobs for contexts `cs`, numbered from `start`.
pub open spec fn status_entries(start: int, fields: (Seq<char>, Seq<char>), cs: Seq<Seq<char>>) -> Seq<
    (CiId, github_status::RepoView),
> {
    Seq::new(
        cs.len(),
        |k: int| (CiId((start + k) as i32), github_status::RepoView { owner: fields.0, repo: fields.1, context: cs[k] }),
    )
}

/// The repository and status context of each CI job.
pub struct StaticGithubStatusPipelinesConfig(pub Vec<(CiId, github_status::Repo)>);

impl View for StaticGithubStatusPipelinesConfig {
    type V = Seq<(CiId, github_status::RepoView)>;

    open spec fn view(&self) -> Seq<(CiId, github_status::RepoView)> {
        self.0@.map_values(|p: (CiId, github_status::Repo)| (p.0, p.1@))
    }
}

impl StaticGithubStatusPipelinesConfig {
    pub fn new() -> (r: StaticGithubStatusPipelinesConfig)
        ensures
            r@.len() == 0,
    {
        let r = StaticGithubStatusPipelinesConfig(Vec::new());
        proof {
            assert(r@ =~= Seq::<(CiId, github_status::RepoView)>::empty());
        }
        r
    }

    fn add_item(
        &mut self,
        name: &str,
        config: &ConfigValue,
        def: &ConfigValue,
        context: &str,
        pipeline_id: PipelineId,
        ci_id: &mut CiId,
        ci_to_pipeline: &mut CiPipelines,
    ) -> (r: Result<(), SetupError<GithubStatusProjectArg>>)
        requires
            old(ci_id).0 < i32::MAX,
        ensures
            match r {
                Ok(()) => spec_status_repo(name@, *config, *def) matches Ok(fields) && final(self)@ == old(self)@.push(
                    (*old(ci_id), github_status::RepoView { owner: fields.0, repo: fields.1, context: context@ }),
                ) && final(ci_to_pipeline).0@ == old(ci_to_pipeline).0@.push(
                    (*old(ci_id), CiType::GithubStatus, pipeline_id),
                ) && final(ci_id).0 == old(ci_id).0 + 1,
                Err(e) => spec_status_repo(name@, *config, *def) == Err::<(Seq<char>, Seq<char>), _>(e)
                    && final(self)@ == old(self)@ && final(ci_to_pipeline).0@ == old(ci_to_pipeline).0@
                    && *final(ci_id) == *old(ci_id),
            },
    {
        let g: &[&str] = &["github"];
        proof {
            assert(keys_view(g@) =~= seq!["github"@]);
        }
        let owner = match string_arg_opt(def, g, "owner", GithubStatusProjectArg::Owner) {
            Ok(Some(x)) => x,
            Ok(None) => match string_arg(config, g, "owner", GithubStatusProjectArg::Owner) {
                Ok(x) => x,
                Err(e) => return Err(e),
            },
            Err(e) => return Err(e),
        };
        let repo = match string_arg_or(def, g, "repo", GithubStatusProjectArg::Repo, name) {
            Ok(x) => x,
            Err(e) => return Err(e),
        };
        let repo = github_status::Repo { owner, repo, context: String::from_str(context) };
        let ghost old_v = self@;
        let ghost rv = repo@;
        self.0.push((*ci_id, repo));
        proof {
            assert(self@ =~= old_v.push((*old(ci_id), rv)));
        }
        ci_to_pipeline.0.push((*ci_id, CiType::GithubStatus, pipeline_id));
        *ci_id = CiId(ci_id.0 + 1);
        Ok(())
    }

    /// Number CI jobs for the status contexts that the project `name`
    /// defines under `github.status`: one string, or an array of them.
    pub fn add_pipeline(
        &mut self,
        name: &str,
        config: &ConfigValue,
        def: &ConfigValue,
        pipeline_id: PipelineId,
        ci_id: &mut CiId,
        ci_to_pipeline: &mut CiPipelines,
    ) -> (r: Result<(), SetupError<GithubStatusProjectArg>>)
        requires
            old(ci_id).0 + ci_bound(*def, seq!["github"@, "status"@]) < i32::MAX,
        ensures
            match r {
                Ok(()) => spec_status_contexts(name@, *config, *def) matches Ok(cs)
                    && final(self)@ == old(self)@ + status_entries(old(ci_id).0 as int, status_repo_fields(name@, *config, *def), cs)
                    && final(ci_to_pipeline).0@ == old(ci_to_pipeline).0@ + ci_entries(old(ci_id).0 as int, cs.len() as int, CiType::GithubStatus, pipeline_id)
                    && final(ci_id).0 == old(ci_id).0 + cs.len(),
                Err(e) => spec_status_contexts(name@, *config, *def) == Err::<Seq<Seq<char>>, _>(e)
                    && ((e is NotFoundConfig) ==> (final(self)@ == old(self)@ && final(ci_to_pipeline).0@ == old(ci_to_pipeline).0@
                        && *final(ci_id) == *old(ci_id))),
            },
    {
        let gs: &[&str] = &["github", "status"];
        proof {
            assert(keys_view(gs@) =~= seq!["github"@, "status"@]);
        }
        let ghost s0 = self@;
        let ghost p0 = ci_to_pipeline.0@;
        let ghost c0 = ci_id.0 as int;
        let ghost fields = status_repo_fields(name@, *config, *def);
        match def.lookup(gs) {
            None => Err(SetupError::NotFoundConfig),
            Some(ConfigValue::String(context)) => {
                let r = self.add_item(name, config, def, context.as_str(), pipeline_id, ci_id, ci_to_pipeline);
                proof {
                    if r is Ok {
                        assert(self@ =~= s0 + status_entries(c0, fields, seq![context@]));
                        assert(ci_to_pipeline.0@ =~= p0 + ci_entries(c0, 1, CiType::GithubStatus, pipeline_id));
                    }
                }
                r
            },
            Some(ConfigValue::Array(contexts)) => {
                let ghost a = contexts@;
                let ghost mut cs: Seq<Seq<char>> = seq![];
                let mut i: usize = 0;
                proof {
                    assert(a.skip(0) =~= a);
                    assert(self@ =~= s0 + status_entries(c0, fields, cs));
                    assert(ci_to_pipeline.0@ =~= p0 + ci_entries(c0, 0, CiType::GithubStatus, pipeline_id));
                }
                while i < contexts.len()
                    invariant
                        i <= contexts.len(),
                        a == contexts@,
                        value_lookup(*def, seq!["github"@, "status"@]) == Some(ConfigValue::Array(*contexts)),
                        fields == status_repo_fields(name@, *config, *def),
                        c0 + a.len() < i32::MAX,
                        c0 == old(ci_id).0,
                        s0 == old(self)@,
                        p0 == old(ci_to_pipeline).0@,
                        cs.len() == i,
                        i > 0 ==> spec_status_repo(name@, *config, *def) is Ok,
                        spec_status_array(name@, *config, *def, a) == match spec_status_array(name@, *config, *def, a.skip(i as int)) {
                            Ok(rest) => Ok(cs + rest),
                            Err(e) => Err(e),
                        },
                        self@ == s0 + status_entries(c0, fields, cs),
                        ci_to_pipeline.0@ == p0 + ci_entries(c0, i as int, CiType::GithubStatus, pipeline_id),
                        ci_id.0 == c0 + i,
                    decreases contexts.len() - i,
                {
                    proof {
                        assert(a.skip(i as int).drop_first() =~= a.skip(i + 1));
                        assert(a.skip(i as int)[0] == a[i as int]);
                    }
                    match &contexts[i] {
                        ConfigValue::String(context) => {
                            let r = self.add_item(name, config, def, context.as_str(), pipeline_id, ci_id, ci_to_pipeline);
                            match r {
                                Ok(()) => {},
                                Err(e) => {
                                    proof {
                                        assert(i == 0);
                                        assert(cs =~= Seq::<Seq<char>>::empty());
                                        assert(status_entries(c0, fields, cs) =~= Seq::<(CiId, github_status::RepoView)>::empty());
                                        assert(self@ =~= s0);
                                        assert(ci_entries(c0, 0, CiType::GithubStatus, pipeline_id) =~= Seq::<(CiId, CiType, PipelineId)>::empty());
                                        assert(ci_to_pipeline.0@ =~= p0);
                                        assert(a.skip(0) =~= a);
                                        assert(a[0] == contexts@[0]);
                                        assert(spec_status_repo(name@, *config, *def) == Err::<(Seq<char>, Seq<char>), _>(e));
                                        assert(spec_status_array(name@, *config, *def, a) == Err::<Seq<Seq<char>>, _>(e));
                                        assert(spec_status_contexts(name@, *config, *def) == Err::<Seq<Seq<char>>, _>(e));
                                        assert(ci_id.0 == old(ci_id).0);
                                        assert(*ci_id == *old(ci_id));
                                    }
                                    return Err(e);
                                },
                            }
                            proof {
                                let ncs = cs.push(context@);
                                let rest = spec_status_array(name@, *config, *def, a.skip(i + 1));
                                assert(spec_status_array(name@, *config, *def, a.skip(i as int)) == match rest {
                                    Ok(x) => Ok(seq![context@] + x),
                                    Err(e) => Err(e),
                                });
                                if rest is Ok {
                                    assert(cs + (seq![context@] + rest->Ok_0) =~= ncs + rest->Ok_0);
                                }
                                assert(self@ =~= s0 + status_entries(c0, fields, ncs));
                                assert(ci_to_pipeline.0@ =~= p0 + ci_entries(c0, i + 1, CiType::GithubStatus, pipeline_id));
                                cs = ncs;
                            }
                        },
                        _ => {
                            return Err(SetupError::InvalidArg(GithubStatusProjectArg::Context, Ty::String));
                        },
                    }
                    i = i + 1;
                }
                proof {
                    assert(a.skip(i as int) =~= Seq::<ConfigValue>::empty());
                    assert(cs + Seq::<Seq<char>>::empty() =~= cs);
                }
                Ok(())
            },
            Some(_) => Err(SetupError::NotTableConfig),
        }
    }

    /// The repository and context of a CI job.
    pub fn repo_by_id(&self, id: CiId) -> (r: Option<github_status::Repo>)
        ensures
            match r {
                Some(repo) => assoc_get(self@, id) == Some(repo@),
                None => assoc_get(self@, id) is None,
            },
    {
        let mut i: usize = 0;
        while i < self.0.len()
            invariant
                i <= self.0.len(),
                forall|j: int| 0 <= j < i ==> self@[j].0 != id,
            decreases self.0.len() - i,
        {
            if self.0[i].0 == id {
                proof {
                    lemma_first_key_found(self@, id, i as int);
                }
                return Some(self.0[i].1.clone());
            }
            i = i + 1;
        }
        proof {
            lemma_first_key_absent(self@, id);
        }
        None
    }

    /// The CI jobs that follow a repository and context.
    pub fn ids_by_repo(&self, repo: &github_status::Repo) -> (r: Vec<CiId>)
        ensures
            r@ == self@.filter(|p: (CiId, github_status::RepoView)| p.1 == repo@).map_values(
                |p: (CiId, github_status::RepoView)| p.0,
            ),
    {
        let mut r: Vec<CiId> = Vec::new();
        let mut i: usize = 0;
        while i < self.0.len()
            invariant
                i <= self.0.len(),
                r@ == self@.take(i as int).filter(|p: (CiId, github_status::RepoView)| p.1 == repo@).map_values(
                    |p: (CiId, github_status::RepoView)| p.0,
                ),
            decreases self.0.len() - i,
        {
            let ghost before = r@;
            let same = self.0[i].1.owner == repo.owner && self.0[i].1.repo == repo.repo
                && self.0[i].1.context == repo.context;
            if same {
                r.push(self.0[i].0);
            }
            proof {
                assert(self@.take(i + 1) =~= self@.take(i as int).push(self@[i as int]));
                self@.take(i as int).lemma_filter_push(self@[i as int], |p: (CiId, github_status::RepoView)| p.1 == repo@);
                let f = self@.take(i as int).filter(|p: (CiId, github_status::RepoView)| p.1 == repo@);
                if same {
                    assert(f.push(self@[i as int]).map_values(|p: (CiId, github_status::RepoView)| p.0) =~= f.map_values(|p: (CiId, github_status::RepoView)| p.0).push(self@[i as int].0));
                }
            }
            i = i + 1;
        }
        proof {
            assert(self@.take(i as int) =~= self@);
        }
        r
    }
}

/// The Jenkins job that one entry of a project's `jenkins` defines.
pub open spec fn spec_jenkins_job(name: Seq<char>, jenkins_def: ConfigValue) -> Result<jenkins::JobView, SetupError<JenkinsProjectArg>> {
    let here = Seq::<Seq<char>>::empty();
    match spec_string_arg_or(jenkins_def, here, "name"@, JenkinsProjectArg::Name, Ok(name)) {
        Err(e) => Err(e),
        Ok(job) => match spec_string_arg(jenkins_def, here, "token"@, JenkinsProjectArg::Token) {
            Err(e) => Err(e),
            Ok(token) => Ok(jenkins::JobView { name: job, token }),
        },
    }
}

/// The jobs of an array of entries, or the first error.
pub open spec fn spec_jenkins_array(name: Seq<char>, a: Seq<ConfigValue>) -> Result<Seq<jenkins::JobView>, SetupError<JenkinsProjectArg>>
    decreases a.len(),
{
    if a.len() == 0 {
        Ok(seq![])
    } else {
        match spec_jenkins_job(name, a[0]) {
            Err(e) => Err(e),
            Ok(j) => match spec_jenkins_array(name, a.drop_first()) {
                Err(e) => Err(e),
                Ok(js) => Ok(seq![j] + js),
            },
        }
    }
}

/// The Jenkins jobs that a project defines under `jenkins`: one table, or
/// an array of them.
pub open spec fn spec_jenkins_jobs(name: Seq<char>, def: ConfigValue) -> Result<Seq<jenkins::JobView>, SetupError<JenkinsProjectArg>> {
    match value_lookup(def, seq!["jenkins"@]) {
        None => Err(SetupError::NotFoundConfig),
        Some(ConfigValue::Table(t)) => match spec_jenkins_job(name, ConfigValue::Table(t)) {
            Err(e) => Err(e),
            Ok(j) => Ok(seq![j]),
        },
        Some(ConfigValue::Array(a)) => spec_jenkins_array(name, a@),
        Some(_) => Err(SetupError::NotTableConfig),
    }
}

pub open spec fn jenkins_entries(start: int, js: Seq<jenkins::JobView>) -> Seq<(CiId, jenkins::JobView)> {
    Seq::new(js.len(), |k: int| (CiId((start + k) as i32), js[k]))
}

/// The Jenkins job of each CI job.
pub struct StaticJenkinsPipelinesConfig(pub Vec<(CiId, jenkins::Job)>);

impl View for StaticJenkinsPipelinesConfig {
    type V = Seq<(CiId, jenkins::JobView)>;

    open spec fn view(&self) -> Seq<(CiId, jenkins::JobView)> {
        self.0@.map_values(|p: (CiId, jenkins::Job)| (p.0, p.1@))
    }
}

impl StaticJenkinsPipelinesConfig {
    pub fn new() -> (r: StaticJenkinsPipelinesConfig)
        ensures
            r@.len() == 0,
    {
        let r = StaticJenkinsPipelinesConfig(Vec::new());
        proof {
            assert(r@ =~= Seq::<(CiId, jenkins::JobView)>::empty());
        }
        r
    }

    fn add_item(
        &mut self,
        name: &str,
        jenkins_def: &ConfigValue,
        pipeline_id: PipelineId,
        ci_id: &mut CiId,
        ci_to_pipeline: &mut CiPipelines,
    ) -> (r: Result<(), SetupError<JenkinsProjectArg>>)
        requires
            old(ci_id).0 < i32::MAX,
        ensures
            match r {
                Ok(()) => spec_jenkins_job(name@, *jenkins_def) matches Ok(j) && final(self)@ == old(self)@.push((*old(ci_id), j))
                    && final(ci_to_pipeline).0@ == old(ci_to_pipeline).0@.push((*old(ci_id), CiType::Jenkins, pipeline_id))
                    && final(ci_id).0 == old(ci_id).0 + 1,
                Err(e) => spec_jenkins_job(name@, *jenkins_def) == Err::<jenkins::JobView, _>(e) && !(e is NotFoundConfig),
            },
    {
        let here: &[&str] = &[];
        proof {
            assert(keys_view(here@) =~= Seq::<Seq<char>>::empty());
        }
        let job = match string_arg_or(jenkins_def, here, "name", JenkinsProjectArg::Name, name) {
            Ok(x) => x,
            Err(e) => return Err(e),
        };
        let token = match string_arg(jenkins_def, here, "token", JenkinsProjectArg::Token) {
            Ok(x) => x,
            Err(e) => return Err(e),
        };
        let job = jenkins::Job { name: job, token };
        let ghost old_v = self@;
        let ghost jv = job@;
        self.0.push((*ci_id, job));
        proof {
            assert(self@ =~= old_v.push((*old(ci_id), jv)));
        }
        ci_to_pipeline.0.push((*ci_id, CiType::Jenkins, pipeline_id));
        *ci_id = CiId(ci_id.0 + 1);
        Ok(())
    }

    /// Number CI jobs for the Jenkins jobs that the project `name` defines
    /// under `jenkins`: one table, or an array of them.
    pub fn add_pipeline(
        &mut self,
        name: &str,
        def: &ConfigValue,
        pipeline_id: PipelineId,
        ci_id: &mut CiId,
        ci_to_pipeline: &mut CiPipelines,
    ) -> (r: Result<(), SetupError<JenkinsProjectArg>>)
        requires
            old(ci_id).0 + ci_bound(*def, seq!["jenkins"@]) < i32::MAX,
        ensures
            match r {
                Ok(()) => spec_jenkins_jobs(name@, *def) matches Ok(js) && final(self)@ == old(self)@ + jenkins_entries(old(ci_id).0 as int, js)
                    && final(ci_to_pipeline).0@ == old(ci_to_pipeline).0@ + ci_entries(old(ci_id).0 as int, js.len() as int, CiType::Jenkins, pipeline_id)
                    && final(ci_id).0 == old(ci_id).0 + js.len(),
                Err(e) => spec_jenkins_jobs(name@, *def) == Err::<Seq<jenkins::JobView>, _>(e)
                    && ((e is NotFoundConfig) ==> (final(self)@ == old(self)@ && final(ci_to_pipeline).0@ == old(ci_to_pipeline).0@
                        && *final(ci_id) == *old(ci_id))),
            },
    {
        let j: &[&str] = &["jenkins"];
        proof {
            assert(keys_view(j@) =~= seq!["jenkins"@]);
        }
        let ghost s0 = self@;
        let ghost p0 = ci_to_pipeline.0@;
        let ghost c0 = ci_id.0 as int;
        match def.lookup(j) {
            None => Err(SetupError::NotFoundConfig),
            Some(jenkins_def) => {
                if jenkins_def.is_table() {
                    let r = self.add_item(name, jenkins_def, pipeline_id, ci_id, ci_to_pipeline);
                    proof {
                        if r is Ok {
                            let js = seq![spec_jenkins_job(name@, *jenkins_def)->Ok_0];
                            assert(self@ =~= s0 + jenkins_entries(c0, js));
                            assert(ci_to_pipeline.0@ =~= p0 + ci_entries(c0, 1, CiType::Jenkins, pipeline_id));
                        }
                    }
                    r
                } else {
                    match jenkins_def {
                        ConfigValue::Array(defs) => {
                            let ghost a = defs@;
                            let ghost mut js: Seq<jenkins::JobView> = seq![];
                            let mut i: usize = 0;
                            proof {
                                assert(a.skip(0) =~= a);
                                assert(self@ =~= s0 + jenkins_entries(c0, js));
                                assert(ci_to_pipeline.0@ =~= p0 + ci_entries(c0, 0, CiType::Jenkins, pipeline_id));
                            }
                            while i < defs.len()
                                invariant
                                    i <= defs.len(),
                                    a == defs@,
                                    value_lookup(*def, seq!["jenkins"@]) == Some(ConfigValue::Array(*defs)),
                                    c0 + a.len() < i32::MAX,
                                    c0 == old(ci_id).0,
                                    js.len() == i,
                                    spec_jenkins_array(name@, a) == match spec_jenkins_array(name@, a.skip(i as int)) {
                                        Ok(rest) => Ok(js + rest),
                                        Err(e) => Err(e),
                                    },
                                    self@ == s0 + jenkins_entries(c0, js),
                                    ci_to_pipeline.0@ == p0 + ci_entries(c0, i as int, CiType::Jenkins, pipeline_id),
                                    ci_id.0 == c0 + i,
                                decreases defs.len() - i,
                            {
                                proof {
                                    assert(a.skip(i as int).drop_first() =~= a.skip(i + 1));
                                    assert(a.skip(i as int)[0] == a[i as int]);
                                }
                                let r = self.add_item(name, &defs[i], pipeline_id, ci_id, ci_to_pipeline);
                                match r {
                                    Ok(()) => {},
                                    Err(e) => {
                                        return Err(e);
                                    },
                                }
                                proof {
                                    let job = spec_jenkins_job(name@, a[i as int])->Ok_0;
                                    let njs = js.push(job);
                                    let rest = spec_jenkins_array(name@, a.skip(i + 1));
                                    if rest is Ok {
                                        assert(js + (seq![job] + rest->Ok_0) =~= njs + rest->Ok_0);
                                    }
                                    assert(self@ =~= s0 + jenkins_entries(c0, njs));
                                    assert(ci_to_pipeline.0@ =~= p0 + ci_entries(c0, i + 1, CiType::Jenkins, pipeline_id));
                                    js = njs;
                                }
                                i = i + 1;
                            }
                            proof {
                                assert(a.skip(i as int) =~= Seq::<ConfigValue>::empty());
                                assert(js + Seq::<jenkins::JobView>::empty() =~= js);
                            }
                            Ok(())
                        },
                        _ => Err(SetupError::NotTableConfig),
                    }
                }
            },
        }
    }

    /// The Jenkins job of a CI job.
    pub fn job_by_id(&self, id: CiId) -> (r: Option<jenkins::Job>)
        ensures
            match r {
                Some(job) => assoc_get(self@, id) == Some(job@),
                None => assoc_get(self@, id) is None,
            },
    {
        let mut i: usize = 0;
        while i < self.0.len()
            invariant
                i <= self.0.len(),
                forall|j: int| 0 <= j < i ==> self@[j].0 != id,
            decreases self.0.len() - i,
        {
            if self.0[i].0 == id {
                proof {
                    lemma_first_key_found(self@, id, i as int);
                }
                return Some(self.0[i].1.clone());
            }
            i = i + 1;
        }
        proof {
            lemma_first_key_absent(self@, id);
        }
        None
    }

    /// The CI jobs that run the Jenkins job `job_name`.
    pub fn ids_by_job_name(&self, job_name: &str) -> (r: Vec<CiId>)
        ensures
            r@ == self@.filter(|p: (CiId, jenkins::JobView)| p.1.name == job_name@).map_values(
                |p: (CiId, jenkins::JobView)| p.0,
            ),
    {
        let mut r: Vec<CiId> = Vec::new();
        let mut i: usize = 0;
        while i < self.0.len()
            invariant
                i <= self.0.len(),
                r@ == self@.take(i as int).filter(|p: (CiId, jenkins::JobView)| p.1.name == job_name@).map_values(
                    |p: (CiId, jenkins::JobView)| p.0,
                ),
            decreases self.0.len() - i,
        {
            let same = crate::util::str_equal(job_name, self.0[i].1.name.as_str());
            if same {
                r.push(self.0[i].0);
            }
            proof {
                assert(self@.take(i + 1) =~= self@.take(i as int).push(self@[i as int]));
                self@.take(i as int).lemma_filter_push(self@[i as int], |p: (CiId, jenkins::JobView)| p.1.name == job_name@);
                let f = self@.take(i as int).filter(|p: (CiId, jenkins::JobView)| p.1.name == job_name@);
                if same {
                    assert(f.push(self@[i as int]).map_values(|p: (CiId, jenkins::JobView)| p.0) =~= f.map_values(|p: (CiId, jenkins::JobView)| p.0).push(self@[i as int].0));
                }
            }
            i = i + 1;
        }
        proof {
            assert(self@.take(i as int) =~= self@);
        }
        r
    }
}

// ----- The local git checkouts.

/// Keep the first pair with key `k`; add `(k, v)` if there is none.
pub open spec fn assoc_insert_absent<K, V>(s: Seq<(K, V)>, k: K, v: V) -> Seq<(K, V)> {
    if first_key(s, k) is Some {
        s
    } else {
        s.push((k, v))
    }
}

/// The section and key of the staging branch, and its default: a pipeline
/// that only tries pull requests reads `try.<section>.branch`.
pub open spec fn staging_section(is_try: bool, section: Seq<char>) -> Seq<Seq<char>> {
    if is_try {
        seq!["try"@, section]
    } else {
        seq![section]
    }
}

pub open spec fn staging_key(is_try: bool) -> Seq<char> {
    if is_try {
        "branch"@
    } else {
        "staging_branch"@
    }
}

pub open spec fn staging_default(is_try: bool) -> Seq<char> {
    if is_try {
        "trying"@
    } else {
        "staging"@
    }
}

fn staging_names(is_try: bool) -> (r: (&'static str, &'static str))
    ensures
        r.0@ == staging_key(is_try),
        r.1@ == staging_default(is_try),
{
    if is_try {
        ("branch", "trying")
    } else {
        ("staging_branch", "staging")
    }
}

/// The checkout of project `name`: under the directory `config.git.path`
/// (`cache/` by default), at `git.path` (the project's name by default).
pub open spec fn spec_git_repo(name: Seq<char>, config: ConfigValue, def: ConfigValue, is_try: bool) -> Result<
    git::RepoView,
    SetupError<GitProjectArg>,
> {
    let g = seq!["git"@];
    match spec_string_arg_or(config, g, "path"@, GitProjectArg::Path, Ok("cache/"@)) {
        Err(e) => Err(e),
        Ok(base) => match spec_string_arg_or(def, g, "path"@, GitProjectArg::Path, Ok(name)) {
            Err(e) => Err(e),
            Ok(path) => match spec_string_arg(def, g, "origin"@, GitProjectArg::Origin) {
                Err(e) => Err(e),
                Ok(origin) => match spec_string_arg_or(
                    def,
                    g,
                    "master_branch"@,
                    GitProjectArg::MasterBranch,
                    Ok("master"@),
                ) {
                    Err(e) => Err(e),
                    Ok(master_branch) => match spec_string_arg_or(
                        def,
                        staging_section(is_try, "git"@),
                        staging_key(is_try),
                        GitProjectArg::StagingBranch,
                        Ok(staging_default(is_try)),
                    ) {
                        Err(e) => Err(e),
                        Ok(staging_branch) => Ok(
                            git::RepoView {
                                path: base + path,
                                origin,
                                master_branch,
                                staging_branch,
                                push_to_master: !is_try,
                            },
                        ),
                    },
                },
            },
        },
    }
}

/// The checkout of each pipeline.
pub struct StaticGitPipelinesConfig(pub Vec<(PipelineId, git::Repo)>);

impl View for StaticGitPipelinesConfig {
    type V = Seq<(PipelineId, git::RepoView)>;

    open spec fn view(&self) -> Seq<(PipelineId, git::RepoView)> {
        self.0@.map_values(|p: (PipelineId, git::Repo)| (p.0, p.1@))
    }
}

impl StaticGitPipelinesConfig {
    pub fn new() -> (r: StaticGitPipelinesConfig)
        ensures
            r@.len() == 0,
    {
        let r = StaticGitPipelinesConfig(Vec::new());
        proof {
            assert(r@ =~= Seq::<(PipelineId, git::RepoView)>::empty());
        }
        r
    }

    fn find(&self, pipeline_id: PipelineId) -> (r: Option<usize>)
        ensures
            match r {
                Some(i) => first_key(self@, pipeline_id) == Some(i as int) && i < self@.len(),
                None => first_key(self@, pipeline_id) is None,
            },
    {
        let mut i: usize = 0;
        while i < self.0.len()
            invariant
                i <= self.0.len(),
                forall|j: int| 0 <= j < i ==> self@[j].0 != pipeline_id,
            decreases self.0.len() - i,
        {
            if self.0[i].0 == pipeline_id {
                proof {
                    lemma_first_key_found(self@, pipeline_id, i as int);
                }
                return Some(i);
            }
            i = i + 1;
        }
        proof {
            lemma_first_key_absent(self@, pipeline_id);
        }
        None
    }

    /// Read the checkout of project `name` for `pipeline_id`; a pipeline
    /// keeps the first checkout given for it.
    pub fn add_pipeline(&mut self, name: &str, config: &ConfigValue, def: &ConfigValue, pipeline_id: PipelineId, is_try: bool) -> (r:
        Result<(), SetupError<GitProjectArg>>)
        ensures
            match r {
                Ok(()) => spec_git_repo(name@, *config, *def, is_try) matches Ok(repo)
                    && final(self)@ == assoc_insert_absent(old(self)@, pipeline_id, repo),
                Err(e) => spec_git_repo(name@, *config, *def, is_try) == Err::<git::RepoView, _>(e)
                    && final(self)@ == old(self)@,
            },
    {
        let g: &[&str] = &["git"];
        let tg: &[&str] = &["try", "git"];
        proof {
            assert(keys_view(g@) =~= seq!["git"@]);
            assert(keys_view(tg@) =~= seq!["try"@, "git"@]);
        }
        let base = match string_arg_or(config, g, "path", GitProjectArg::Path, "cache/") {
            Ok(x) => x,
            Err(e) => return Err(e),
        };
        let path = match string_arg_or(def, g, "path", GitProjectArg::Path, name) {
            Ok(x) => x,
            Err(e) => return Err(e),
        };
        let origin = match string_arg(def, g, "origin", GitProjectArg::Origin) {
            Ok(x) => x,
            Err(e) => return Err(e),
        };
        let master_branch = match string_arg_or(def, g, "master_branch", GitProjectArg::MasterBranch, "master") {
            Ok(x) => x,
            Err(e) => return Err(e),
        };
        let section = if is_try {
            tg
        } else {
            g
        };
        let (key, default) = staging_names(is_try);
        let staging_branch = match string_arg_or(def, section, key, GitProjectArg::StagingBranch, default) {
            Ok(x) => x,
            Err(e) => return Err(e),
        };
        let mut full_path = base;
        full_path.append(path.as_str());
        let repo = git::Repo { path: full_path, origin, master_branch, staging_branch, push_to_master: !is_try };
        match self.find(pipeline_id) {
            Some(_) => {},
            None => {
                let ghost old_v = self@;
                let ghost rv = repo@;
                self.0.push((pipeline_id, repo));
                proof {
                    assert(self@ =~= old_v.push((pipeline_id, rv)));
                }
            },
        }
        Ok(())
    }

    /// The checkout of a pipeline.
    pub fn repo_by_pipeline(&self, pipeline_id: PipelineId) -> (r: Option<git::Repo>)
        ensures
            match r {
                Some(repo) => assoc_get(self@, pipeline_id) == Some(repo@),
                None => assoc_get(self@, pipeline_id) is None,
            },
    {
        match self.find(pipeline_id) {
            Some(i) => Some(self.0[i].1.clone()),
            None => None,
        }
    }
}

// ----- The GitHub repositories that pipelines push to.

/// The repository of project `name`: the owner comes from `config.github`
/// or else from the project; the repository is named after the project by
/// default.
pub open spec fn spec_github_git_repo(name: Seq<char>, config: ConfigValue, def: ConfigValue, is_try: bool) -> Result<
    github_git::RepoView,
    SetupError<GithubGitProjectArg>,
> {
    let g = seq!["github"@];
    match spec_string_arg_or(
        config,
        g,
        "owner"@,
        GithubGitProjectArg::Owner,
        spec_string_arg(def, g, "owner"@, GithubGitProjectArg::Owner),
    ) {
        Err(e) => Err(e),
        Ok(owner) => match spec_string_arg_or(def, g, "repo"@, GithubGitProjectArg::Repo, Ok(name)) {
            Err(e) => Err(e),
            Ok(repo) => match spec_string_arg_or(
                def,
                g,
                "master_branch"@,
                GithubGitProjectArg::MasterBranch,
                Ok("master"@),
            ) {
                Err(e) => Err(e),
                Ok(master_branch) => match spec_string_arg_or(
                    def,
                    staging_section(is_try, "github"@),
                    staging_key(is_try),
                    GithubGitProjectArg::StagingBranch,
                    Ok(staging_default(is_try)),
                ) {
                    Err(e) => Err(e),
                    Ok(staging_branch) => Ok(
                        github_git::RepoView { owner, repo, master_branch, staging_branch, push_to_master: !is_try },
                    ),
                },
            },
        },
    }
}

/// The GitHub repository of each pipeline.
pub struct StaticGithubGitPipelinesConfig(pub Vec<(PipelineId, github_git::Repo)>);

impl View for StaticGithubGitPipelinesConfig {
    type V = Seq<(PipelineId, github_git::RepoView)>;

    open spec fn view(&self) -> Seq<(PipelineId, github_git::RepoView)> {
        self.0@.map_values(|p: (PipelineId, github_git::Repo)| (p.0, p.1@))
    }
}

impl StaticGithubGitPipelinesConfig {
    pub fn new() -> (r: StaticGithubGitPipelinesConfig)
        ensures
            r@.len() == 0,
    {
        let r = StaticGithubGitPipelinesConfig(Vec::new());
        proof {
            assert(r@ =~= Seq::<(PipelineId, github_git::RepoView)>::empty());
        }
        r
    }

    fn find(&self, pipeline_id: PipelineId) -> (r: Option<usize>)
        ensures
            match r {
                Some(i) => first_key(self@, pipeline_id) == Some(i as int) && i < self@.len(),
                None => first_key(self@, pipeline_id) is None,
            },
    {
        let mut i: usize = 0;
        while i < self.0.len()
            invariant
                i <= self.0.len(),
                forall|j: int| 0 <= j < i ==> self@[j].0 != pipeline_id,
            decreases self.0.len() - i,
        {
            if self.0[i].0 == pipeline_id {
                proof {
                    lemma_first_key_found(self@, pipeline_id, i as int);
                }
                return Some(i);
            }
            i = i + 1;
        }
        proof {
            lemma_first_key_absent(self@, pipeline_id);
        }
        None
    }

    /// Read the GitHub repository of project `name` for `pipeline_id`; a
    /// pipeline keeps the first repository given for it.
    pub fn add_pipeline(&mut self, name: &str, config: &ConfigValue, def: &ConfigValue, pipeline_id: PipelineId, is_try: bool) -> (r:
        Result<(), SetupError<GithubGitProjectArg>>)
        ensures
            match r {
                Ok(()) => spec_github_git_repo(name@, *config, *def, is_try) matches Ok(repo)
                    && final(self)@ == assoc_insert_absent(old(self)@, pipeline_id, repo),
                Err(e) => spec_github_git_repo(name@, *config, *def, is_try) == Err::<github_git::RepoView, _>(e)
                    && final(self)@ == old(self)@,
            },
    {
        let g: &[&str] = &["github"];
        let tg: &[&str] = &["try", "github"];
        proof {
            assert(keys_view(g@) =~= seq!["github"@]);
            assert(keys_view(tg@) =~= seq!["try"@, "github"@]);
        }
        let owner = match string_arg_opt(config, g, "owner", GithubGitProjectArg::Owner) {
            Ok(Some(x)) => x,
            Ok(None) => match string_arg(def, g, "owner", GithubGitProjectArg::Owner) {
                Ok(x) => x,
                Err(e) => return Err(e),
            },
            Err(e) => return Err(e),
        };
        let repo = match string_arg_or(def, g, "repo", GithubGitProjectArg::Repo, name) {
            Ok(x) => x,
            Err(e) => return Err(e),
        };
        let master_branch = match string_arg_or(def, g, "master_branch", GithubGitProjectArg::MasterBranch, "master") {
            Ok(x) => x,
            Err(e) => return Err(e),
        };
        let section = if is_try {
            tg
        } else {
            g
        };
        let (key, default) = staging_names(is_try);
        let staging_branch = match string_arg_or(def, section, key, GithubGitProjectArg::StagingBranch, default) {
            Ok(x) => x,
            Err(e) => return Err(e),
        };
        let repo = github_git::Repo { owner, repo, master_branch, staging_branch, push_to_master: !is_try };
        match self.find(pipeline_id) {
            Some(_) => {},
            None => {
                let ghost old_v = self@;
                let ghost rv = repo@;
                self.0.push((pipeline_id, repo));
                proof {
                    assert(self@ =~= old_v.push((pipeline_id, rv)));
                }
            },
        }
        Ok(())
    }

    /// The GitHub repository of a pipeline.
    pub fn repo_by_pipeline(&self, pipeline_id: PipelineId) -> (r: Option<github_git::Repo>)
        ensures
            match r {
                Some(repo) => assoc_get(self@, pipeline_id) == Some(repo@),
                None => assoc_get(self@, pipeline_id) is None,
            },
    {
        match self.find(pipeline_id) {
            Some(i) => Some(self.0[i].1.clone()),
            None => None,
        }
    }
}

// ----- The web view's pipelines.

/// The pipeline shown under each project name.
pub struct StaticViewPipelinesConfig(pub Vec<(String, PipelineId)>);

impl View for StaticViewPipelinesConfig {
    type V = Seq<(Seq<char>, PipelineId)>;

    open spec fn view(&self) -> Seq<(Seq<char>, PipelineId)> {
        self.0@.map_values(|p: (String, PipelineId)| (p.0@, p.1))
    }
}

impl StaticViewPipelinesConfig {
    pub fn new() -> (r: StaticViewPipelinesConfig)
        ensures
            r@.len() == 0,
    {
        let r = StaticViewPipelinesConfig(Vec::new());
        proof {
            assert(r@ =~= Seq::<(Seq<char>, PipelineId)>::empty());
        }
        r
    }

    fn find(&self, name: &str) -> (r: Option<usize>)
        ensures
            match r {
                Some(i) => first_key(self@, name@) == Some(i as int) && i < self@.len(),
                None => first_key(self@, name@) is None,
            },
    {
        let mut i: usize = 0;
        while i < self.0.len()
            invariant
                i <= self.0.len(),
                forall|j: int| 0 <= j < i ==> self@[j].0 != name@,
            decreases self.0.len() - i,
        {
            if crate::util::str_equal(self.0[i].0.as_str(), name) {
                proof {
                    lemma_first_key_found(self@, name@, i as int);
                }
                return Some(i);
            }
            i = i + 1;
        }
        proof {
            lemma_first_key_absent(self@, name@);
        }
        None
    }

    /// Show project `name` as `pipeline_id`, in place of any pipeline it
    /// was shown as before.
    pub fn add_pipeline(&mut self, name: &str, pipeline_id: PipelineId) -> (r: Result<(), SetupError<ViewProjectArg>>)
        ensures
            r is Ok,
            final(self)@ == assoc_insert(old(self)@, name@, pipeline_id),
    {
        match self.find(name) {
            Some(i) => {
                let ghost old_v = self@;
                self.0.set(i, (String::from_str(name), pipeline_id));
                proof {
                    assert(self@ =~= old_v.update(i as int, (name@, pipeline_id)));
                }
            },
            None => {
                let ghost old_v = self@;
                self.0.push((String::from_str(name), pipeline_id));
                proof {
                    assert(self@ =~= old_v.push((name@, pipeline_id)));
                }
            },
        }
        Ok(())
    }

    /// The pipeline shown under `name`.
    pub fn pipeline_by_name(&self, name: &str) -> (r: Option<PipelineId>)
        ensures
            r == assoc_get(self@, name@),
    {
        match self.find(name) {
            Some(i) => Some(self.0[i].1),
            None => None,
        }
    }

    /// Every project name with its pipeline.
    pub fn all(&self) -> (r: Vec<(String, PipelineId)>)
        ensures
            r@.map_values(|p: (String, PipelineId)| (p.0@, p.1)) == self@,
    {
        let mut r: Vec<(String, PipelineId)> = Vec::new();
        let mut i: usize = 0;
        while i < self.0.len()
            invariant
                i <= self.0.len(),
                r@.len() == i,
                r@.map_values(|p: (String, PipelineId)| (p.0@, p.1)) == self@.take(i as int),
            decreases self.0.len() - i,
        {
            let ghost old_r = r@;
            r.push((self.0[i].0.clone(), self.0[i].1));
            proof {
                assert(r@.len() == old_r.len() + 1);
                assert(forall|j: int| 0 <= j < old_r.len() ==> r@[j] == old_r[j]);
                assert(r@[i as int].0@ == self@[i as int].0 && r@[i as int].1 == self@[i as int].1);
                assert(r@.map_values(|p: (String, PipelineId)| (p.0@, p.1)) =~= self@.take(i + 1));
            }
            i = i + 1;
        }
        proof {
            assert(self@.take(i as int) =~= self@);
        }
        r
    }
}

} // verus!
