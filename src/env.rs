//! A lighter view of a repository for switching: its configuration, where it
//! lives and which environment its head file names.
use vstd::prelude::*;
use vstd::string::StringExecFns;
use crate::config::{Config, expand};
use crate::environment::{EnvState, EnvType, parse_env, serialize_env};
use crate::error::{EnvmError, ErrorModel};
use crate::path::{
    PathModel, RepoPath, get_current_path, head_path, is_plain_name, is_valid_env, join_path,
};
use crate::plan::{FileOp, OpModel, ops_view, plan_view};
use crate::repository::Repository;

verus! {

/// The environment a head file names: `Local`, or another one by name.
#[derive(Debug)]
pub enum Head {
    Local,
    Other(String),
}

impl View for Head {
    type V = EnvState;

    open spec fn view(&self) -> EnvState {
        match self {
            Head::Local => EnvState::Local,
            Head::Other(n) => EnvState::Named(n@),
        }
    }
}

impl Head {
    /// The head that `contents`, trimmed, names.
    pub fn from(contents: &str) -> (r: Head)
        ensures
            r@ == parse_env(contents@),
    {
        match EnvType::from(contents) {
            EnvType::Local => Head::Local,
            EnvType::Other(n) => Head::Other(n),
        }
    }

    /// The token written to the head file for this head.
    pub fn to_string(&self) -> (r: String)
        ensures
            r@ == serialize_env(self@),
    {
        match self {
            Head::Local => String::from_str("local"),
            Head::Other(value) => value.clone(),
        }
    }
}

/// The steps that switch to the environment that `env` names: copy its file
/// over the local file, then record it in the head file at `head`.
pub open spec fn env_switch_plan(
    root: PathModel,
    pattern: Seq<char>,
    local: Seq<char>,
    head: PathModel,
    env: Seq<char>,
) -> Result<Seq<OpModel>, ErrorModel> {
    if !is_plain_name(env) {
        Err(ErrorModel::InvalidEnvironmentName(env))
    } else {
        Ok(
            seq![
                OpModel::Copy {
                    from: join_path(root, expand(pattern, env)),
                    to: join_path(root, local),
                    error: ErrorModel::MissingTargetEnvironment(env),
                },
                OpModel::Write { path: head, contents: serialize_env(parse_env(env)) },
            ],
        )
    }
}

/// A repository's configuration and location, with the head it read.
#[derive(Debug)]
pub struct Environment {
    config: Config,
    repo_path: RepoPath,
    head_path: RepoPath,
    head: Head,
}

impl Environment {
    /// The environment of `repo`, whose head file holds `head_contents`.
    pub fn new(repo: &Repository, head_contents: &str) -> (r: Environment)
        ensures
            r.config()@ == repo@.config,
            r.repo_path()@ == repo@.root,
            r.head_path()@ == head_path(repo@.root),
            r.head()@ == parse_env(head_contents@),
    {
        Environment {
            config: repo.config().duplicate(),
            repo_path: repo.path().duplicate(),
            head_path: get_current_path(repo.path()),
            head: Head::from(head_contents),
        }
    }

    /// The configuration.
    pub closed spec fn config(&self) -> Config {
        self.config
    }

    /// The root directory of the repository.
    pub closed spec fn repo_path(&self) -> RepoPath {
        self.repo_path
    }

    /// The head file.
    pub closed spec fn head_path(&self) -> RepoPath {
        self.head_path
    }

    /// The head read at creation.
    pub closed spec fn head(&self) -> Head {
        self.head
    }

    /// The file of the environment named `env`; `InvalidEnvironmentName`
    /// where `env` is not a single plain component.
    pub fn get_environment_filename(&self, env: &str) -> (r: Result<RepoPath, EnvmError>)
        ensures
            is_plain_name(env@) ==> r is Ok && r->Ok_0@ == join_path(
                self.repo_path()@,
                expand(self.config()@.pattern, env@),
            ),
            !is_plain_name(env@) ==> r is Err && r->Err_0@ == ErrorModel::InvalidEnvironmentName(
                env@,
            ),
    {
        if !is_valid_env(env) {
            return Err(EnvmError::InvalidEnvironmentName(String::from_str(env)));
        }
        let filename = self.config.expand(env);
        Ok(self.repo_path.join(filename.as_str()))
    }

    /// The local environment file.
    pub fn get_local_environment_filename(&self) -> (r: RepoPath)
        ensures
            r@ == join_path(self.repo_path()@, self.config()@.local),
    {
        self.repo_path.join(self.config.local().as_str())
    }

    /// Switches to the environment named `env`: the steps of
    /// `env_switch_plan`.
    pub fn use_environment(&self, env: &str) -> (r: Result<Vec<FileOp>, EnvmError>)
        ensures
            plan_view(r) == env_switch_plan(
                self.repo_path()@,
                self.config()@.pattern,
                self.config()@.local,
                self.head_path()@,
                env@,
            ),
    {
        let target = match self.get_environment_filename(env) {
            Ok(p) => p,
            Err(e) => return Err(e),
        };
        let local = self.get_local_environment_filename();
        let head = Head::from(env);
        let mut ops: Vec<FileOp> = Vec::new();
        ops.push(
            FileOp::Copy {
                from: target,
                to: local,
                error: EnvmError::MissingTargetEnvironment(String::from_str(env)),
            },
        );
        ops.push(FileOp::Write { path: self.head_path.duplicate(), contents: head.to_string() });
        assert(ops_view(ops@) =~= env_switch_plan(
            self.repo_path()@,
            self.config()@.pattern,
            self.config()@.local,
            self.head_path()@,
            env@,
        )->Ok_0);
        Ok(ops)
    }
}

} // verus!
