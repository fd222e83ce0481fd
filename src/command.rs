//! The operations a user can ask for.
use vstd::prelude::*;

verus! {

/// One operation on a repository, with the environment it concerns.
#[derive(Debug, PartialEq, Eq)]
pub enum UseCase {
    UseEnvironment(String),
    NewEnvironment(String),
    ListEnvironments,
    InitConfiguration,
    DiffEnvironment(String),
    RemoveEnvironment(String),
    ShowCurrentUsingEnvironment,
    Gitignore,
}

} // verus!
