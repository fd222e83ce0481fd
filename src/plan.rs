//! The filesystem work of a repository operation, as a list of steps that
//! the caller performs in order, stopping at the first that fails; and the
//! meaning of those steps on a model of the filesystem.
use vstd::prelude::*;
use crate::config::{Config, ConfigModel};
use crate::error::{EnvmError, ErrorModel};
use crate::path::{PathModel, RepoPath};

verus! {

/// One step of filesystem work.
#[derive(Debug)]
pub enum FileOp {
    /// Fails with `error` where something exists at `path`.
    EnsureAbsent { path: RepoPath, error: EnvmError },
    /// Fails with `error` where nothing exists at `path`.
    EnsureExists { path: RepoPath, error: EnvmError },
    /// Creates the directory `path`.
    CreateDir { path: RepoPath },
    /// Copies the file `from` over the file `to`; fails with `error` where
    /// `from` cannot be read.
    Copy { from: RepoPath, to: RepoPath, error: EnvmError },
    /// Writes `contents` over the file `path`.
    Write { path: RepoPath, contents: String },
    /// Stores `config` at `path`, in the configuration file format.
    StoreConfig { path: RepoPath, config: Config },
    /// Deletes the file `path`.
    Remove { path: RepoPath },
}

/// The mathematical value of a step.
pub enum OpModel {
    EnsureAbsent { path: PathModel, error: ErrorModel },
    EnsureExists { path: PathModel, error: ErrorModel },
    CreateDir { path: PathModel },
    Copy { from: PathModel, to: PathModel, error: ErrorModel },
    Write { path: PathModel, contents: Seq<char> },
    StoreConfig { path: PathModel, config: ConfigModel },
    Remove { path: PathModel },
}

impl View for FileOp {
    type V = OpModel;

    open spec fn view(&self) -> OpModel {
        match self {
            FileOp::EnsureAbsent { path, error } => OpModel::EnsureAbsent {
                path: path@,
                error: error@,
            },
            FileOp::EnsureExists { path, error } => OpModel::EnsureExists {
                path: path@,
                error: error@,
            },
            FileOp::CreateDir { path } => OpModel::CreateDir { path: path@ },
            FileOp::Copy { from, to, error } => OpModel::Copy {
                from: from@,
                to: to@,
                error: error@,
            },
            FileOp::Write { path, contents } => OpModel::Write { path: path@, contents: contents@ },
            FileOp::StoreConfig { path, config } => OpModel::StoreConfig {
                path: path@,
                config: config@,
            },
            FileOp::Remove { path } => OpModel::Remove { path: path@ },
        }
    }
}

/// The steps of `ops`, as values.
pub open spec fn ops_view(ops: Seq<FileOp>) -> Seq<OpModel> {
    ops.map_values(|o: FileOp| o@)
}

/// The value of an operation's result: its steps, or its error.
pub open spec fn plan_view(r: Result<Vec<FileOp>, EnvmError>) -> Result<Seq<OpModel>, ErrorModel> {
    match r {
        Ok(ops) => Ok(ops_view(ops@)),
        Err(e) => Err(e@),
    }
}

/// What a file holds: text, or a stored configuration.
pub enum FileContent {
    Text(Seq<char>),
    Settings(ConfigModel),
}

/// The part of a filesystem that repository operations touch.
pub struct FsModel {
    pub files: Map<PathModel, FileContent>,
    pub dirs: Set<PathModel>,
}

/// Whether a file or directory exists at `p`.
pub open spec fn exists_at(fs: FsModel, p: PathModel) -> bool {
    fs.files.contains_key(p) || fs.dirs.contains(p)
}

/// The filesystem after step `op`, or the error it fails with.
pub open spec fn apply_op(fs: FsModel, op: OpModel) -> Result<FsModel, ErrorModel> {
    match op {
        OpModel::EnsureAbsent { path, error } => if exists_at(fs, path) {
            Err(error)
        } else {
            Ok(fs)
        },
        OpModel::EnsureExists { path, error } => if exists_at(fs, path) {
            Ok(fs)
        } else {
            Err(error)
        },
        OpModel::CreateDir { path } => Ok(FsModel { dirs: fs.dirs.insert(path), ..fs }),
        OpModel::Copy { from, to, error } => if fs.files.contains_key(from) {
            Ok(FsModel { files: fs.files.insert(to, fs.files[from]), ..fs })
        } else {
            Err(error)
        },
        OpModel::Write { path, contents } => Ok(
            FsModel { files: fs.files.insert(path, FileContent::Text(contents)), ..fs },
        ),
        OpModel::StoreConfig { path, config } => Ok(
            FsModel { files: fs.files.insert(path, FileContent::Settings(config)), ..fs },
        ),
        OpModel::Remove { path } => Ok(FsModel { files: fs.files.remove(path), ..fs }),
    }
}

/// The filesystem after the steps `ops` in order, or the error of the first
/// step that fails.
pub open spec fn run_ops(fs: FsModel, ops: Seq<OpModel>) -> Result<FsModel, ErrorModel>
    decreases ops.len(),
{
    if ops.len() == 0 {
        Ok(fs)
    } else {
        match apply_op(fs, ops[0]) {
            Ok(next) => run_ops(next, ops.drop_first()),
            Err(e) => Err(e),
        }
    }
}

} // verus!
