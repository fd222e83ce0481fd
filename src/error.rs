//! The errors that repository operations report, and their messages.
use vstd::prelude::*;
use vstd::string::StringExecFns;

verus! {

/// What went wrong in a repository operation; where the error concerns one
/// environment or file, it carries that name.
#[derive(Debug, PartialEq, Eq)]
pub enum EnvmError {
    NotEnvmRepository,
    MissingConfigFile,
    FailedToParseConfig,
    MissingHeadFile,
    MissingTargetEnvironment(String),
    FailedToBackupLocalEnvironment,
    MissingBackupEnvironment,
    RepositoryAlreadyExists,
    MissingTemplateEnvironment(String),
    TargetEnvironmentAlreadyExists(String),
    AlreadyUsingTargetEnvironment(String),
    RemovingUsingEnvironment(String),
    InvalidEnvironmentName(String),
    UnableReadGitignore(String),
    UnableWriteGitignore(String),
}

/// The mathematical value of an error: its kind, and the name it carries.
pub enum ErrorModel {
    NotEnvmRepository,
    MissingConfigFile,
    FailedToParseConfig,
    MissingHeadFile,
    MissingTargetEnvironment(Seq<char>),
    FailedToBackupLocalEnvironment,
    MissingBackupEnvironment,
    RepositoryAlreadyExists,
    MissingTemplateEnvironment(Seq<char>),
    TargetEnvironmentAlreadyExists(Seq<char>),
    AlreadyUsingTargetEnvironment(Seq<char>),
    RemovingUsingEnvironment(Seq<char>),
    InvalidEnvironmentName(Seq<char>),
    UnableReadGitignore(Seq<char>),
    UnableWriteGitignore(Seq<char>),
}

impl View for EnvmError {
    type V = ErrorModel;

    open spec fn view(&self) -> ErrorModel {
        match self {
            EnvmError::NotEnvmRepository => ErrorModel::NotEnvmRepository,
            EnvmError::MissingConfigFile => ErrorModel::MissingConfigFile,
            EnvmError::FailedToParseConfig => ErrorModel::FailedToParseConfig,
            EnvmError::MissingHeadFile => ErrorModel::MissingHeadFile,
            EnvmError::MissingTargetEnvironment(n) => ErrorModel::MissingTargetEnvironment(n@),
            EnvmError::FailedToBackupLocalEnvironment => ErrorModel::FailedToBackupLocalEnvironment,
            EnvmError::MissingBackupEnvironment => ErrorModel::MissingBackupEnvironment,
            EnvmError::RepositoryAlreadyExists => ErrorModel::RepositoryAlreadyExists,
            EnvmError::MissingTemplateEnvironment(n) => ErrorModel::MissingTemplateEnvironment(n@),
            EnvmError::TargetEnvironmentAlreadyExists(n) => ErrorModel::TargetEnvironmentAlreadyExists(
                n@,
            ),
            EnvmError::AlreadyUsingTargetEnvironment(n) => ErrorModel::AlreadyUsingTargetEnvironment(
                n@,
            ),
            EnvmError::RemovingUsingEnvironment(n) => ErrorModel::RemovingUsingEnvironment(n@),
            EnvmError::InvalidEnvironmentName(n) => ErrorModel::InvalidEnvironmentName(n@),
            EnvmError::UnableReadGitignore(c) => ErrorModel::UnableReadGitignore(c@),
            EnvmError::UnableWriteGitignore(c) => ErrorModel::UnableWriteGitignore(c@),
        }
    }
}

/// The message shown to the user for `e`.
pub open spec fn message_of(e: EnvmError) -> Seq<char> {
    match e {
        EnvmError::NotEnvmRepository => "not a envm repository (or any of the parent directories)"@,
        EnvmError::MissingConfigFile => "cannot found the configuration at .envm"@,
        EnvmError::FailedToParseConfig => "failed to parse the configuration"@,
        EnvmError::MissingHeadFile => "cannot found the head at .envm"@,
        EnvmError::MissingTargetEnvironment(env) => "cannot found the "@ + env@ + " environment"@,
        EnvmError::FailedToBackupLocalEnvironment => "failed to backup the local environment"@,
        EnvmError::MissingBackupEnvironment => "cannot found the backup local environment"@,
        EnvmError::RepositoryAlreadyExists => "the envm repository already exists"@,
        EnvmError::MissingTemplateEnvironment(name) => "cannot found the template environment: "@
            + name@,
        EnvmError::TargetEnvironmentAlreadyExists(env) => "the '"@ + env@
            + "' environment already exists"@,
        EnvmError::AlreadyUsingTargetEnvironment(env) => "already using '"@ + env@
            + "' environment"@,
        EnvmError::RemovingUsingEnvironment(env) => "cannot remove current using environment: "@
            + env@,
        EnvmError::InvalidEnvironmentName(env) => "the target environment is invalid: "@ + env@,
        EnvmError::UnableReadGitignore(cause) => "unable to read the .gitignore file: "@ + cause@,
        EnvmError::UnableWriteGitignore(cause) => "unable to write to the .gitignore file: "@
            + cause@,
    }
}

/// `head`, then `name`, then `tail`.
fn framed(head: &str, name: &String, tail: &str) -> (r: String)
    ensures
        r@ == head@ + name@ + tail@,
{
    let mut r = String::from_str(head);
    r.append(name.as_str());
    r.append(tail);
    r
}

/// `head`, then `name`.
fn prefixed(head: &str, name: &String) -> (r: String)
    ensures
        r@ == head@ + name@,
{
    let mut r = String::from_str(head);
    r.append(name.as_str());
    r
}

impl EnvmError {
    /// The message shown to the user for this error.
    pub fn message(&self) -> (r: String)
        ensures
            r@ == message_of(*self),
    {
        match self {
            EnvmError::NotEnvmRepository => String::from_str(
                "not a envm repository (or any of the parent directories)",
            ),
            EnvmError::MissingConfigFile => String::from_str(
                "cannot found the configuration at .envm",
            ),
            EnvmError::FailedToParseConfig => String::from_str("failed to parse the configuration"),
            EnvmError::MissingHeadFile => String::from_str("cannot found the head at .envm"),
            EnvmError::MissingTargetEnvironment(env) => framed(
                "cannot found the ",
                env,
                " environment",
            ),
            EnvmError::FailedToBackupLocalEnvironment => String::from_str(
                "failed to backup the local environment",
            ),
            EnvmError::MissingBackupEnvironment => String::from_str(
                "cannot found the backup local environment",
            ),
            EnvmError::RepositoryAlreadyExists => String::from_str(
                "the envm repository already exists",
            ),
            EnvmError::MissingTemplateEnvironment(name) => prefixed(
                "cannot found the template environment: ",
                name,
            ),
            EnvmError::TargetEnvironmentAlreadyExists(env) => framed(
                "the '",
                env,
                "' environment already exists",
            ),
            EnvmError::AlreadyUsingTargetEnvironment(env) => framed(
                "already using '",
                env,
                "' environment",
            ),
            EnvmError::RemovingUsingEnvironment(env) => prefixed(
                "cannot remove current using environment: ",
                env,
            ),
            EnvmError::InvalidEnvironmentName(env) => prefixed(
                "the target environment is invalid: ",
                env,
            ),
            EnvmError::UnableReadGitignore(cause) => prefixed(
                "unable to read the .gitignore file: ",
                cause,
            ),
            EnvmError::UnableWriteGitignore(cause) => prefixed(
                "unable to write to the .gitignore file: ",
                cause,
            ),
        }
    }
}

} // verus!
