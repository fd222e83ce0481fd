use envm::config::Config;
use envm::env::{Environment, Head};
use envm::environment::EnvType;
use envm::path::RepoPath;
use envm::repository::Repository;

#[test]
fn env_get_local_head() {
    let head = Head::from("local");
    assert!(matches!(head, Head::Local));
}

#[test]
fn env_get_other_head() {
    let head = Head::from("dev");
    assert!(matches!(head, Head::Other(v) if v == "dev"));
}

#[test]
fn get_environment_filename() {
    let config = Config::with_names(
        String::from(".env"),
        String::from(".env.{}"),
        String::from(".env.example"),
    )
    .unwrap();
    let repo = Repository::open(RepoPath::new("/repo"), config, "local");
    let env = Environment::new(&repo, "local");
    let filename = env.get_environment_filename("dev").unwrap();
    assert_eq!(filename.to_string(), "/repo/.env.dev");
}

#[test]
fn environment_get_local_head() {
    let env = EnvType::from("local");
    assert!(matches!(env, EnvType::Local));
}

#[test]
fn environment_get_other_head() {
    let env = EnvType::from("dev");
    assert!(matches!(env, EnvType::Other(v) if v == "dev"));
}

#[test]
fn should_equal() {
    assert!(EnvType::from("local").is_equal(&EnvType::from("local")));
    assert!(EnvType::from("dev").is_equal(&EnvType::from("dev")));
}

#[test]
fn should_not_equal() {
    assert!(!EnvType::from("local").is_equal(&EnvType::from("dev")));
    assert!(!EnvType::from("dev").is_equal(&EnvType::from("local")));
    assert!(!EnvType::from("dev").is_equal(&EnvType::from("production")));
}

#[test]
fn head_token_is_trimmed() {
    assert!(matches!(EnvType::from("  local\n"), EnvType::Local));
    assert!(matches!(EnvType::from("\u{3000}dev\t\r\n"), EnvType::Other(v) if v == "dev"));
    assert!(matches!(EnvType::from("Local"), EnvType::Other(v) if v == "Local"));
}

#[test]
fn head_token_round_trip() {
    for token in ["local", "dev", "production", "a b"] {
        let state = EnvType::from(token);
        let again = EnvType::from(state.to_string());
        assert!(state.is_equal(&again));
        assert_eq!(again.to_string(), token);
    }
    assert_eq!(Head::from("staging").to_string(), "staging");
    assert_eq!(Head::from(" local ").to_string(), "local");
}

#[test]
fn environment_use_writes_head_and_copies() {
    let repo = Repository::new(RepoPath::new("/repo"));
    let env = Environment::new(&repo, "local");
    assert_eq!(env.get_local_environment_filename().to_string(), "/repo/.env");
    let ops = env.use_environment("dev").unwrap();
    assert_eq!(ops.len(), 2);
    assert!(env.use_environment("../x").is_err());
}
