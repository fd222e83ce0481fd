use envm::error::EnvmError;
use envm::path::{
    get_config_path, get_current_path, get_env_path, get_envm_path, get_local_backup_path,
    get_local_env_path, get_template_env_path, is_valid_env, RepoPath,
};
use envm::repository::Repository;

#[test]
fn should_get_config_path() {
    let repo = Repository::new(RepoPath::new("/repo"));
    assert_eq!(get_config_path(repo.path()).to_string(), "/repo/.envm/config");
}

#[test]
fn should_get_current_path() {
    let repo = Repository::new(RepoPath::new("/repo"));
    assert_eq!(get_current_path(repo.path()).to_string(), "/repo/.envm/HEAD");
}

#[test]
fn should_get_env_path() {
    let repo = Repository::new(RepoPath::new("/repo"));
    let env = "dev";
    assert_eq!(get_env_path(&repo, env).unwrap().to_string(), "/repo/.env.dev");
}

#[test]
fn should_not_get_env_path_out_of_repo() {
    let repo = Repository::new(RepoPath::new("/repo"));
    let env = "dev/../../target.txt";
    assert!(matches!(
        get_env_path(&repo, env),
        Err(EnvmError::InvalidEnvironmentName(n)) if n == env
    ));
}

#[test]
fn should_get_local_backup_path() {
    let repo = Repository::new(RepoPath::new("/repo"));
    assert_eq!(
        get_local_backup_path(&repo).to_string(),
        "/repo/.envm/.env.backup"
    );
}

#[test]
fn should_get_envm_path() {
    let repo = Repository::new(RepoPath::new("/repo"));
    assert_eq!(get_envm_path(repo.path()).to_string(), "/repo/.envm");
}

#[test]
fn should_get_local_env_path() {
    let repo = Repository::new(RepoPath::new("/repo"));
    assert_eq!(get_local_env_path(&repo).to_string(), "/repo/.env");
}

#[test]
fn should_get_template_env_path() {
    let repo = Repository::new(RepoPath::new("/repo"));
    assert_eq!(
        get_template_env_path(&repo).to_string(),
        "/repo/.env.example"
    );
}

#[test]
fn valid_names_are_single_components() {
    assert!(is_valid_env("dev"));
    assert!(is_valid_env("production-eu"));
    assert!(is_valid_env(".hidden"));
    assert!(!is_valid_env("dev/../../x"));
    assert!(!is_valid_env(""));
    assert!(!is_valid_env("/etc"));
    assert!(!is_valid_env("dev/"));
    assert!(!is_valid_env(".."));
    assert!(!is_valid_env("."));
}

#[test]
fn path_text_and_ancestors() {
    assert_eq!(RepoPath::new("/a//b/./c/").to_string(), "/a/b/c");
    assert_eq!(RepoPath::new("a/b").to_string(), "a/b");
    assert_eq!(RepoPath::new("/").to_string(), "/");
    let ancestors: Vec<String> = RepoPath::new("/a/b").ancestors().iter().map(|p| p.to_string()).collect();
    assert_eq!(ancestors, vec!["/a/b", "/a", "/"]);
    assert_eq!(RepoPath::new("/repo").join("/etc/x").to_string(), "/etc/x");
    assert_eq!(RepoPath::new("/repo").join("sub/.env").to_string(), "/repo/sub/.env");
}
