//! A repository: a root directory with its configuration and the environment
//! in use, and the operations on it. Each operation decides what it can from
//! these values and returns the filesystem work that remains, as steps.
use vstd::prelude::*;
use vstd::string::StringExecFns;
use crate::config::{
    Config, ConfigModel, config_wf, default_config, expand, pattern_prefix, pattern_suffix,
};
use crate::environment::{
    EnvState, EnvType, lemma_env_round_trip, lemma_parse_env_wf, lemma_parse_local, parse_env,
    serialize_env,
};
use crate::error::{EnvmError, ErrorModel};
use crate::path::{
    PathModel, RepoPath, ancestor, backup_path, config_path, get_config_path, get_current_path,
    get_env_path, get_envm_path, get_local_backup_path, get_local_env_path,
    get_template_env_path, head_path, is_plain_name, local_path, marker_path, named_path,
    template_path,
};
use crate::configuration::{compare, dotenv, missing_keys, non_empty, opt_view, parse};
use crate::listing::{EnvNamePattern, captured};
use crate::text::same_text;
use crate::plan::{FileContent, FileOp, FsModel, OpModel, apply_op, ops_view, plan_view, run_ops};

verus! {

/// The mathematical value of a repository.
pub struct RepoModel {
    pub root: PathModel,
    pub config: ConfigModel,
    pub current: EnvState,
}

/// A repository whose configuration is usable and whose state is well formed.
pub open spec fn repo_wf(r: RepoModel) -> bool {
    config_wf(r.config) && r.current.wf()
}

/// The steps that switch `r` to the environment that `env` names: back up
/// the local file when leaving the local environment, copy the backup or
/// the named file over the local file, and record the new state.
pub open spec fn switch_plan(r: RepoModel, env: Seq<char>) -> Result<Seq<OpModel>, ErrorModel> {
    let target = parse_env(env);
    if target == r.current {
        Err(ErrorModel::AlreadyUsingTargetEnvironment(env))
    } else if target is Named && !is_plain_name(target->Named_0) {
        Err(ErrorModel::InvalidEnvironmentName(target->Named_0))
    } else {
        let backup = if r.current is Local {
            seq![
                OpModel::Copy {
                    from: local_path(r),
                    to: backup_path(r.root),
                    error: ErrorModel::FailedToBackupLocalEnvironment,
                },
            ]
        } else {
            seq![]
        };
        let restore = match target {
            EnvState::Local => OpModel::Copy {
                from: backup_path(r.root),
                to: local_path(r),
                error: ErrorModel::MissingBackupEnvironment,
            },
            EnvState::Named(n) => OpModel::Copy {
                from: named_path(r, n),
                to: local_path(r),
                error: ErrorModel::MissingTargetEnvironment(env),
            },
        };
        Ok(
            backup + seq![
                restore,
                OpModel::Write { path: head_path(r.root), contents: serialize_env(target) },
            ],
        )
    }
}

/// The steps that set up a repository for `r`: the marker directory, the
/// configuration and the head file.
pub open spec fn init_plan(r: RepoModel) -> Seq<OpModel> {
    seq![
        OpModel::EnsureAbsent {
            path: marker_path(r.root),
            error: ErrorModel::RepositoryAlreadyExists,
        },
        OpModel::CreateDir { path: marker_path(r.root) },
        OpModel::StoreConfig { path: config_path(r.root), config: r.config },
        OpModel::Write { path: head_path(r.root), contents: serialize_env(r.current) },
    ]
}

/// The file that holds the environment `target`.
pub open spec fn env_file(r: RepoModel, target: EnvState) -> PathModel {
    match target {
        EnvState::Local => local_path(r),
        EnvState::Named(n) => named_path(r, n),
    }
}

/// The file that a new environment called `env` goes to: the local file
/// where `env` reads as the local state, otherwise the named file of `env`
/// exactly as given.
pub open spec fn new_env_file(r: RepoModel, env: Seq<char>) -> PathModel {
    if parse_env(env) is Local {
        local_path(r)
    } else {
        named_path(r, env)
    }
}

/// The steps that create the environment that `env` names as a copy of the
/// template, provided the template exists and the environment does not.
/// A name other than `local` must be a single plain component, as given.
pub open spec fn new_env_plan(r: RepoModel, env: Seq<char>) -> Result<Seq<OpModel>, ErrorModel> {
    if parse_env(env) is Named && !is_plain_name(env) {
        Err(ErrorModel::InvalidEnvironmentName(env))
    } else {
        let missing = ErrorModel::MissingTemplateEnvironment(r.config.template);
        Ok(
            seq![
                OpModel::EnsureExists { path: template_path(r), error: missing },
                OpModel::EnsureAbsent {
                    path: new_env_file(r, env),
                    error: ErrorModel::TargetEnvironmentAlreadyExists(env),
                },
                OpModel::Copy { from: template_path(r), to: new_env_file(r, env), error: missing },
            ],
        )
    }
}

/// The steps that delete the environment that `env` names, which must not
/// be the one in use and must exist.
pub open spec fn remove_plan(r: RepoModel, env: Seq<char>) -> Result<Seq<OpModel>, ErrorModel> {
    let target = parse_env(env);
    if target == r.current {
        Err(ErrorModel::RemovingUsingEnvironment(env))
    } else if target is Named && !is_plain_name(target->Named_0) {
        Err(ErrorModel::InvalidEnvironmentName(target->Named_0))
    } else {
        Ok(
            seq![
                OpModel::EnsureExists {
                    path: env_file(r, target),
                    error: ErrorModel::MissingTargetEnvironment(env),
                },
                OpModel::Remove { path: env_file(r, target) },
            ],
        )
    }
}

/// `r` as it reads after the filesystem became `fs`: its state is what the
/// head file holds.
pub open spec fn reloaded(r: RepoModel, fs: FsModel) -> RepoModel {
    match fs.files[head_path(r.root)] {
        FileContent::Text(t) => RepoModel { current: parse_env(t), ..r },
        FileContent::Settings(_) => r,
    }
}

/// Running `ops` and then `op` is running `ops.push(op)`.
proof fn lemma_run_ops_push(fs: FsModel, ops: Seq<OpModel>, op: OpModel)
    ensures
        run_ops(fs, ops.push(op)) == match run_ops(fs, ops) {
            Ok(mid) => apply_op(mid, op),
            Err(e) => Err(e),
        },
    decreases ops.len(),
{
    if ops.len() == 0 {
        assert(ops.push(op).drop_first() =~= Seq::<OpModel>::empty());
        assert(ops.push(op)[0] == op);
        reveal_with_fuel(run_ops, 2);
    } else {
        assert(ops.push(op).drop_first() =~= ops.drop_first().push(op));
        assert(ops.push(op)[0] == ops[0]);
        match apply_op(fs, ops[0]) {
            Ok(next) => lemma_run_ops_push(next, ops.drop_first(), op),
            Err(_) => {},
        }
    }
}

/// After a switch to the environment that `env` names has been carried out,
/// the repository as it then reads refuses a second switch to it with
/// `AlreadyUsingTargetEnvironment`.
pub proof fn lemma_switch_twice_rejected(r: RepoModel, env: Seq<char>, fs: FsModel, after: FsModel)
    requires
        repo_wf(r),
        switch_plan(r, env) is Ok,
        run_ops(fs, switch_plan(r, env)->Ok_0) == Ok::<FsModel, ErrorModel>(after),
    ensures
        reloaded(r, after).current == parse_env(env),
        switch_plan(reloaded(r, after), env) == Err::<Seq<OpModel>, ErrorModel>(
            ErrorModel::AlreadyUsingTargetEnvironment(env),
        ),
{
    let ops = switch_plan(r, env)->Ok_0;
    let target = parse_env(env);
    let write = OpModel::Write { path: head_path(r.root), contents: serialize_env(target) };
    assert(ops =~= ops.drop_last().push(write));
    lemma_run_ops_push(fs, ops.drop_last(), write);
    lemma_parse_env_wf(env);
    lemma_env_round_trip(target);
}

/// Leaving the local environment for a named one and coming back: the named
/// file's contents replace the local file, the old local contents go to the
/// backup, and the way back restores them; the head file follows each step.
/// Stated for layouts where the files involved are distinct.
pub proof fn lemma_backup_restore(
    r: RepoModel,
    env: Seq<char>,
    fs: FsModel,
    local_text: Seq<char>,
    named_text: Seq<char>,
)
    requires
        repo_wf(r),
        r.current == EnvState::Local,
        parse_env(env) is Named,
        is_plain_name(parse_env(env)->Named_0),
        fs.files.contains_key(local_path(r)),
        fs.files[local_path(r)] == FileContent::Text(local_text),
        fs.files.contains_key(named_path(r, parse_env(env)->Named_0)),
        fs.files[named_path(r, parse_env(env)->Named_0)] == FileContent::Text(named_text),
        local_path(r) != backup_path(r.root),
        local_path(r) != head_path(r.root),
        named_path(r, parse_env(env)->Named_0) != local_path(r),
        named_path(r, parse_env(env)->Named_0) != backup_path(r.root),
        named_path(r, parse_env(env)->Named_0) != head_path(r.root),
    ensures
        ({
            let n = parse_env(env)->Named_0;
            let there = run_ops(fs, switch_plan(r, env)->Ok_0);
            &&& switch_plan(r, env) is Ok
            &&& there is Ok
            &&& there->Ok_0.files[local_path(r)] == FileContent::Text(named_text)
            &&& there->Ok_0.files[backup_path(r.root)] == FileContent::Text(local_text)
            &&& there->Ok_0.files[head_path(r.root)] == FileContent::Text(n)
            &&& reloaded(r, there->Ok_0).current == EnvState::Named(n)
            &&& switch_plan(reloaded(r, there->Ok_0), "local"@) is Ok
            &&& ({
                let back = run_ops(
                    there->Ok_0,
                    switch_plan(reloaded(r, there->Ok_0), "local"@)->Ok_0,
                );
                &&& back is Ok
                &&& back->Ok_0.files[local_path(r)] == FileContent::Text(local_text)
                &&& back->Ok_0.files[head_path(r.root)] == FileContent::Text("local"@)
                &&& reloaded(r, back->Ok_0).current == EnvState::Local
            })
        }),
{
    let n = parse_env(env)->Named_0;
    lemma_parse_env_wf(env);
    lemma_env_round_trip(EnvState::Named(n));
    lemma_parse_local();
    lemma_distinct_marker_files(r.root);
    let ops = switch_plan(r, env)->Ok_0;
    reveal_with_fuel(run_ops, 4);
    let fs1 = apply_op(fs, ops[0])->Ok_0;
    let fs2 = apply_op(fs1, ops[1])->Ok_0;
    assert(ops.drop_first().drop_first().drop_first() =~= Seq::<OpModel>::empty());
    let there = run_ops(fs, ops)->Ok_0;
    let r2 = reloaded(r, there);
    assert(r2.current == EnvState::Named(n));
    let ops2 = switch_plan(r2, "local"@)->Ok_0;
    assert(ops2.drop_first().drop_first() =~= Seq::<OpModel>::empty());
    let back = run_ops(there, ops2);
    assert(back is Ok);
    assert(back->Ok_0.files[head_path(r.root)] == FileContent::Text("local"@));
}

/// The backup and head files are two different files.
proof fn lemma_distinct_marker_files(root: PathModel)
    ensures
        backup_path(root) != head_path(root),
{
    reveal_strlit(".env.backup");
    reveal_strlit("HEAD");
    assert(backup_path(root).parts.last() == ".env.backup"@);
    assert(head_path(root).parts.last() == "HEAD"@);
}

/// Removing the environment in use fails with `RemovingUsingEnvironment`,
/// whatever is on disk: no step is returned to run.
pub proof fn lemma_remove_active_rejected(r: RepoModel, env: Seq<char>)
    requires
        parse_env(env) == r.current,
    ensures
        remove_plan(r, env) == Err::<Seq<OpModel>, ErrorModel>(
            ErrorModel::RemovingUsingEnvironment(env),
        ),
{
}

/// The environment names that the files `names` give, in their order: each
/// name other than `template` that matches `prefix{}suffix` gives what
/// stands in place of the placeholder.
pub open spec fn listed(
    prefix: Seq<char>,
    suffix: Seq<char>,
    template: Seq<char>,
    names: Seq<Seq<char>>,
) -> Seq<Seq<char>>
    decreases names.len(),
{
    if names.len() == 0 {
        seq![]
    } else {
        let before = listed(prefix, suffix, template, names.drop_last());
        let f = names.last();
        if f != template && captured(prefix, suffix, f) is Some {
            before.push(captured(prefix, suffix, f)->Some_0)
        } else {
            before
        }
    }
}

/// The environments that the files `names` of the root directory of `r`
/// give.
pub open spec fn listed_in(r: RepoModel, names: Seq<Seq<char>>) -> Seq<Seq<char>> {
    listed(pattern_prefix(r.config.pattern), pattern_suffix(r.config.pattern), r.config.template, names)
}

proof fn lemma_captured(prefix: Seq<char>, suffix: Seq<char>, f: Seq<char>, n: Seq<char>)
    ensures
        captured(prefix, suffix, f) == Some(n) <==> f == prefix + n + suffix,
{
    if f == prefix + n + suffix {
        assert(f.take(prefix.len() as int) =~= prefix);
        assert(f.skip(f.len() - suffix.len()) =~= suffix);
        assert(f.subrange(prefix.len() as int, f.len() - suffix.len()) =~= n);
    }
    if captured(prefix, suffix, f) == Some(n) {
        assert(f =~= f.take(prefix.len() as int) + f.subrange(
            prefix.len() as int,
            f.len() - suffix.len(),
        ) + f.skip(f.len() - suffix.len()));
    }
}

proof fn lemma_listed_contains(
    prefix: Seq<char>,
    suffix: Seq<char>,
    template: Seq<char>,
    names: Seq<Seq<char>>,
    n: Seq<char>,
)
    ensures
        listed(prefix, suffix, template, names).contains(n) <==> exists|i: int|
            0 <= i < names.len() && names[i] != template && captured(prefix, suffix, #[trigger] names[i])
                == Some(n),
    decreases names.len(),
{
    if names.len() > 0 {
        let init = names.drop_last();
        lemma_listed_contains(prefix, suffix, template, init, n);
        let before = listed(prefix, suffix, template, init);
        let f = names.last();
        if listed(prefix, suffix, template, names).contains(n) {
            if !before.contains(n) {
                assert(names[names.len() - 1] == f);
            } else {
                let i = choose|i: int|
                    0 <= i < init.len() && init[i] != template && captured(prefix, suffix, #[trigger] init[i])
                        == Some(n);
                assert(names[i] == init[i]);
            }
        }
        if exists|i: int|
            0 <= i < names.len() && names[i] != template && captured(prefix, suffix, #[trigger] names[i])
                == Some(n) {
            let i = choose|i: int|
                0 <= i < names.len() && names[i] != template && captured(prefix, suffix, #[trigger] names[i])
                    == Some(n);
            if i < names.len() - 1 {
                assert(init[i] == names[i]);
                assert(before.contains(n));
                if f != template && captured(prefix, suffix, f) is Some {
                    let all = before.push(captured(prefix, suffix, f)->Some_0);
                    let j = choose|j: int| 0 <= j < before.len() && before[j] == n;
                    assert(all[j] == n);
                }
            } else {
                let all = before.push(n);
                assert(all[before.len() as int] == n);
            }
        }
    }
}

/// The listing holds a name exactly when the file that the pattern gives
/// for it is among the names and is not the template.
pub proof fn lemma_listing_exact(r: RepoModel, names: Seq<Seq<char>>, n: Seq<char>)
    requires
        config_wf(r.config),
    ensures
        listed_in(r, names).contains(n) <==> (names.contains(expand(r.config.pattern, n))
            && expand(r.config.pattern, n) != r.config.template),
{
    let p = pattern_prefix(r.config.pattern);
    let s = pattern_suffix(r.config.pattern);
    let f = expand(r.config.pattern, n);
    lemma_listed_contains(p, s, r.config.template, names, n);
    if listed_in(r, names).contains(n) {
        let i = choose|i: int|
            0 <= i < names.len() && names[i] != r.config.template && captured(p, s, #[trigger] names[i])
                == Some(n);
        lemma_captured(p, s, names[i], n);
        assert(names[i] == f);
    }
    if names.contains(f) && f != r.config.template {
        let i = choose|i: int| 0 <= i < names.len() && names[i] == f;
        lemma_captured(p, s, f, n);
        assert(names[i] != r.config.template && captured(p, s, names[i]) == Some(n));
    }
}

/// The nearest of the ancestors of `p` from `k` levels up on that `marked`
/// flags; `marked[j]` stands for the ancestor `j` levels up.
pub open spec fn locate_from(p: PathModel, marked: Seq<bool>, k: int) -> Option<PathModel>
    decreases p.parts.len() + 1 - k,
{
    if k < 0 || k > p.parts.len() {
        None
    } else if k < marked.len() && marked[k] {
        Some(ancestor(p, k))
    } else {
        locate_from(p, marked, k + 1)
    }
}

/// The nearest ancestor of `p`, `p` itself included, that `marked` flags.
pub open spec fn locate(p: PathModel, marked: Seq<bool>) -> Option<PathModel> {
    locate_from(p, marked, 0)
}

/// The flags that say which ancestors of `p` are among `repos`, nearest
/// first.
pub open spec fn marks(p: PathModel, repos: Set<PathModel>) -> Seq<bool> {
    Seq::new((p.parts.len() + 1) as nat, |k: int| repos.contains(ancestor(p, k)))
}

proof fn lemma_locate_from(p: PathModel, marked: Seq<bool>, k: int, j: int)
    requires
        0 <= k <= j <= p.parts.len(),
        forall|i: int| k <= i < j ==> !(i < marked.len() && #[trigger] marked[i]),
    ensures
        locate_from(p, marked, k) == locate_from(p, marked, j),
    decreases j - k,
{
    if k < j {
        lemma_locate_from(p, marked, k + 1, j);
    }
}

/// Looking up from `start`, where `repos` are the directories that hold a
/// marker: with no repository among the ancestors of `start` nothing is
/// found; where the nearest one is `k` levels up, that ancestor is found,
/// however deep `start` lies beneath it.
pub proof fn lemma_locate_nearest(start: PathModel, repos: Set<PathModel>, k: int)
    requires
        0 <= k <= start.parts.len() + 1,
        forall|j: int| 0 <= j < k ==> !repos.contains(#[trigger] ancestor(start, j)),
    ensures
        k == start.parts.len() + 1 ==> locate(start, marks(start, repos)) is None,
        k <= start.parts.len() && repos.contains(ancestor(start, k)) ==> locate(
            start,
            marks(start, repos),
        ) == Some(ancestor(start, k)),
{
    let m = marks(start, repos);
    if k <= start.parts.len() {
        lemma_locate_from(start, m, 0, k);
    } else {
        let last = start.parts.len() as int;
        lemma_locate_from(start, m, 0, last);
        assert(!repos.contains(ancestor(start, last)));
        assert(!m[last]);
        assert(locate_from(start, m, last + 1) is None);
    }
}

/// The nearest ancestor of `dir`, `dir` included, whose flag in `marked` is
/// set, where `marked[k]` says whether the ancestor `k` levels up holds the
/// marker directory; ancestors beyond the flags count as unmarked.
pub fn lookup_repository(dir: &RepoPath, marked: &Vec<bool>) -> (r: Option<RepoPath>)
    ensures
        match r {
            Some(p) => locate(dir@, marked@) == Some(p@),
            None => locate(dir@, marked@) is None,
        },
{
    let all = dir.ancestors();
    let mut k: usize = 0;
    while k < all.len()
        invariant
            all.len() == dir@.parts.len() + 1,
            forall|j: int| 0 <= j < all.len() ==> (#[trigger] all[j])@ == ancestor(dir@, j),
            k <= all.len(),
            locate(dir@, marked@) == locate_from(dir@, marked@, k as int),
        decreases all.len() - k,
    {
        if k < marked.len() && marked[k] {
            return Some(all[k].duplicate());
        }
        k = k + 1;
    }
    None
}

/// A repository of environment files.
#[derive(Debug)]
pub struct Repository {
    path: RepoPath,
    config: Config,
    current_env: EnvType,
}

impl View for Repository {
    type V = RepoModel;

    closed spec fn view(&self) -> RepoModel {
        RepoModel { root: self.path@, config: self.config@, current: self.current_env@ }
    }
}

impl Repository {
    #[verifier::type_invariant]
    spec fn inv(self) -> bool {
        self.current_env@.wf()
    }

    /// A repository at `path` with the default configuration, using the
    /// local environment: the state that `init` sets up.
    pub fn new(path: RepoPath) -> (r: Repository)
        ensures
            r@ == (RepoModel { root: path@, config: default_config(), current: EnvState::Local }),
    {
        Repository { path, config: Config::new(), current_env: EnvType::Local }
    }

    /// The repository at `path` with configuration `config`, whose head file
    /// holds `head`.
    pub fn open(path: RepoPath, config: Config, head: &str) -> (r: Repository)
        ensures
            r@ == (RepoModel { root: path@, config: config@, current: parse_env(head@) }),
    {
        Repository { path, config, current_env: EnvType::from(head) }
    }

    /// The file that holds `target`; `InvalidEnvironmentName` for a named
    /// environment whose name is not a single plain component.
    fn env_file(&self, target: &EnvType) -> (r: Result<RepoPath, EnvmError>)
        ensures
            target@ is Named && !is_plain_name(target@->Named_0) ==> r is Err && r->Err_0@
                == ErrorModel::InvalidEnvironmentName(target@->Named_0),
            !(target@ is Named && !is_plain_name(target@->Named_0)) ==> r is Ok && r->Ok_0@
                == env_file(self@, target@),
    {
        match target {
            EnvType::Local => Ok(get_local_env_path(self)),
            EnvType::Other(n) => get_env_path(self, n.as_str()),
        }
    }

    /// Switches to the environment that `env` names. Fails with
    /// `AlreadyUsingTargetEnvironment` where it is the one in use; otherwise
    /// returns the steps of `switch_plan`.
    pub fn use_environment(&self, env: &str) -> (r: Result<Vec<FileOp>, EnvmError>)
        ensures
            plan_view(r) == switch_plan(self@, env@),
    {
        let target = EnvType::from(env);
        if target.is_equal(&self.current_env) {
            return Err(EnvmError::AlreadyUsingTargetEnvironment(String::from_str(env)));
        }
        let local = get_local_env_path(self);
        let backup = get_local_backup_path(self);
        let source = match &target {
            EnvType::Local => get_local_backup_path(self),
            EnvType::Other(_) => match self.env_file(&target) {
                Ok(p) => p,
                Err(e) => return Err(e),
            },
        };
        let source_error = match &target {
            EnvType::Local => EnvmError::MissingBackupEnvironment,
            EnvType::Other(_) => EnvmError::MissingTargetEnvironment(String::from_str(env)),
        };
        let mut ops: Vec<FileOp> = Vec::new();
        if let EnvType::Local = self.current_env {
            ops.push(
                FileOp::Copy {
                    from: get_local_env_path(self),
                    to: backup,
                    error: EnvmError::FailedToBackupLocalEnvironment,
                },
            );
        }
        ops.push(FileOp::Copy { from: source, to: local, error: source_error });
        ops.push(
            FileOp::Write {
                path: get_current_path(&self.path),
                contents: String::from_str(target.to_string()),
            },
        );
        assert(ops_view(ops@) =~= switch_plan(self@, env@)->Ok_0);
        Ok(ops)
    }

    /// The marker directory of this repository, and the steps that set the
    /// repository up on disk; where the marker directory exists they fail
    /// with `RepositoryAlreadyExists`.
    pub fn init(&self) -> (r: (RepoPath, Vec<FileOp>))
        ensures
            r.0@ == marker_path(self@.root),
            ops_view(r.1@) == init_plan(self@),
    {
        let marker = get_envm_path(&self.path);
        let mut ops: Vec<FileOp> = Vec::new();
        ops.push(
            FileOp::EnsureAbsent {
                path: get_envm_path(&self.path),
                error: EnvmError::RepositoryAlreadyExists,
            },
        );
        ops.push(FileOp::CreateDir { path: marker.duplicate() });
        ops.push(
            FileOp::StoreConfig { path: get_config_path(&self.path), config: self.config.duplicate() },
        );
        ops.push(
            FileOp::Write {
                path: get_current_path(&self.path),
                contents: String::from_str(self.current_env.to_string()),
            },
        );
        assert(ops_view(ops@) =~= init_plan(self@));
        (marker, ops)
    }

    /// The steps that create the environment that `env` names from the
    /// template: the local file for `local`, otherwise the named file of
    /// `env` as given; `InvalidEnvironmentName` where such a name is not a
    /// single plain component.
    pub fn new_environment(&self, env: &str) -> (r: Result<Vec<FileOp>, EnvmError>)
        ensures
            plan_view(r) == new_env_plan(self@, env@),
    {
        let dest = match EnvType::from(env) {
            EnvType::Local => get_local_env_path(self),
            EnvType::Other(_) => match get_env_path(self, env) {
                Ok(p) => p,
                Err(e) => return Err(e),
            },
        };
        let mut ops: Vec<FileOp> = Vec::new();
        ops.push(
            FileOp::EnsureExists {
                path: get_template_env_path(self),
                error: EnvmError::MissingTemplateEnvironment(self.config.template().clone()),
            },
        );
        ops.push(
            FileOp::EnsureAbsent {
                path: dest.duplicate(),
                error: EnvmError::TargetEnvironmentAlreadyExists(String::from_str(env)),
            },
        );
        ops.push(
            FileOp::Copy {
                from: get_template_env_path(self),
                to: dest,
                error: EnvmError::MissingTemplateEnvironment(self.config.template().clone()),
            },
        );
        assert(ops_view(ops@) =~= new_env_plan(self@, env@)->Ok_0);
        Ok(ops)
    }

    /// Deletes the environment that `env` names. Fails with
    /// `RemovingUsingEnvironment` where it is the one in use, whether or not
    /// its file exists; otherwise returns the steps of `remove_plan`.
    pub fn remove_environment(&self, env: &str) -> (r: Result<Vec<FileOp>, EnvmError>)
        ensures
            plan_view(r) == remove_plan(self@, env@),
    {
        let env_type = EnvType::from(env);
        if self.current_env.is_equal(&env_type) {
            return Err(EnvmError::RemovingUsingEnvironment(String::from_str(env)));
        }
        let env_path = match self.env_file(&env_type) {
            Ok(p) => p,
            Err(e) => return Err(e),
        };
        let gone = env_path.duplicate();
        let mut ops: Vec<FileOp> = Vec::new();
        ops.push(
            FileOp::EnsureExists {
                path: env_path,
                error: EnvmError::MissingTargetEnvironment(String::from_str(env)),
            },
        );
        ops.push(FileOp::Remove { path: gone });
        assert(ops_view(ops@) =~= remove_plan(self@, env@)->Ok_0);
        Ok(ops)
    }

    /// The environments among `filenames`, the names of the regular files
    /// directly under the root, in their order: each name other than the
    /// template that matches the pattern gives what stands in place of the
    /// placeholder.
    pub fn list_environments(&self, filenames: &Vec<String>) -> (r: Vec<String>)
        ensures
            r@.map_values(|s: String| s@) == listed_in(self@, filenames@.map_values(|s: String| s@)),
    {
        let (prefix, suffix) = self.config().pattern_parts();
        let matcher = EnvNamePattern::new(prefix, suffix);
        let template = self.config().template();
        let ghost names = filenames@.map_values(|s: String| s@);
        let mut r: Vec<String> = Vec::new();
        for i in 0..filenames.len()
            invariant
                names == filenames@.map_values(|s: String| s@),
                matcher.prefix() == pattern_prefix(self@.config.pattern),
                matcher.suffix() == pattern_suffix(self@.config.pattern),
                template@ == self@.config.template,
                r@.map_values(|s: String| s@) == listed_in(self@, names.take(i as int)),
        {
            let ghost before = r@.map_values(|s: String| s@);
            assert(names.take(i + 1).drop_last() =~= names.take(i as int));
            assert(names.take(i + 1).last() == filenames@[i as int]@);
            let name = &filenames[i];
            if !same_text(name.as_str(), template.as_str()) {
                match matcher.capture(name.as_str()) {
                    Some(env) => {
                        r.push(env);
                        assert(r@.map_values(|s: String| s@) =~= before.push(
                            captured(matcher.prefix(), matcher.suffix(), name@)->Some_0,
                        ));
                    },
                    None => {},
                }
            }
        }
        assert(names.take(filenames.len() as int) =~= names);
        r
    }

    /// The keys that the template `template` has and the environment file
    /// `target` lacks (missing), and those that `target` has and the
    /// template lacks (extra), both files read as environment files;
    /// `None` in place of an empty list.
    pub fn compare_to_template(&self, template: &str, target: &str) -> (r: (
        Option<Vec<String>>,
        Option<Vec<String>>,
    ))
        ensures
            opt_view(r.0) == non_empty(missing_keys(dotenv(template@), dotenv(target@))),
            opt_view(r.1) == non_empty(missing_keys(dotenv(target@), dotenv(template@))),
    {
        let template_configuration = parse(template);
        let target_configuration = parse(target);
        compare(&template_configuration, &target_configuration)
    }

    /// The root directory.
    pub fn path(&self) -> (r: &RepoPath)
        ensures
            r@ == self@.root,
    {
        &self.path
    }

    /// The configuration.
    pub fn config(&self) -> (r: &Config)
        ensures
            r@ == self@.config,
            repo_wf(self@),
    {
        proof {
            use_type_invariant(self);
            use_type_invariant(&self.config);
        }
        &self.config
    }

    /// The environment in use.
    pub fn current_env(&self) -> (r: &EnvType)
        ensures
            r@ == self@.current,
            repo_wf(self@),
    {
        proof {
            use_type_invariant(self);
            use_type_invariant(&self.config);
        }
        &self.current_env
    }
}

} // verus!
