use std::collections::{HashMap, HashSet};

use envm::config::Config;
use envm::error::EnvmError;
use envm::path::{get_current_path, get_env_path, get_local_backup_path, get_local_env_path, RepoPath};
use envm::plan::FileOp;
use envm::repository::{lookup_repository, Repository};

#[derive(Default)]
struct Disk {
    files: HashMap<String, String>,
    dirs: HashSet<String>,
}

impl Disk {
    fn holds(&self, path: &RepoPath) -> bool {
        let p = path.to_string();
        self.files.contains_key(&p) || self.dirs.contains(&p)
    }

    fn run(&mut self, ops: Vec<FileOp>) -> Result<(), EnvmError> {
        for op in ops {
            match op {
                FileOp::EnsureAbsent { path, error } => {
                    if self.holds(&path) {
                        return Err(error);
                    }
                }
                FileOp::EnsureExists { path, error } => {
                    if !self.holds(&path) {
                        return Err(error);
                    }
                }
                FileOp::CreateDir { path } => {
                    self.dirs.insert(path.to_string());
                }
                FileOp::Copy { from, to, error } => match self.files.get(&from.to_string()) {
                    Some(text) => {
                        let text = text.clone();
                        self.files.insert(to.to_string(), text);
                    }
                    None => return Err(error),
                },
                FileOp::Write { path, contents } => {
                    self.files.insert(path.to_string(), contents);
                }
                FileOp::StoreConfig { path, config } => {
                    self.files.insert(path.to_string(), format!("pattern = {:?}", config.pattern()));
                }
                FileOp::Remove { path } => {
                    self.files.remove(&path.to_string());
                }
            }
        }
        Ok(())
    }

    fn read(&self, path: &RepoPath) -> Option<String> {
        self.files.get(&path.to_string()).cloned()
    }

    fn reload(&self, repo: &Repository) -> Repository {
        let head = self.read(&get_current_path(repo.path())).unwrap();
        Repository::open(repo.path().duplicate(), repo.config().duplicate(), &head)
    }
}

fn new_repo(disk: &mut Disk) -> Repository {
    let repo = Repository::new(RepoPath::new("/repo"));
    let (marker, steps) = repo.init();
    assert_eq!(marker.to_string(), "/repo/.envm");
    disk.run(steps).unwrap();
    repo
}

fn write(disk: &mut Disk, path: &str, text: &str) {
    disk.files.insert(path.to_string(), text.to_string());
}

#[test]
fn not_a_repository() {
    let root = RepoPath::new("/not/a/repository");
    let marked = vec![false; root.ancestors().len()];
    assert!(lookup_repository(&root, &marked).is_none());
}

#[test]
fn lookup_finds_nearest_marked_ancestor() {
    let start = RepoPath::new("/work/project/src/deep");
    let marked = vec![false, false, false, true, false];
    assert_eq!(lookup_repository(&start, &marked).unwrap().to_string(), "/work");
    let start = RepoPath::new("/work/project/src/deep/deeper/deepest");
    let marked = vec![false, false, false, false, false, true, false];
    assert_eq!(lookup_repository(&start, &marked).unwrap().to_string(), "/work");
    let marked = vec![false, true, false, false, false, true, false];
    assert_eq!(lookup_repository(&start, &marked).unwrap().to_string(), "/work/project/src/deep/deeper");
    assert!(lookup_repository(&start, &vec![]).is_none());
}

#[test]
fn should_init_repo() {
    let mut disk = Disk::default();
    let repo = new_repo(&mut disk);
    assert!(disk.dirs.contains("/repo/.envm"));
    assert!(disk.files.contains_key("/repo/.envm/config"));
    assert_eq!(disk.read(&get_current_path(repo.path())), Some(String::from("local")));
    assert!(matches!(disk.run(repo.init().1), Err(EnvmError::RepositoryAlreadyExists)));
}

#[test]
fn should_use_target_env() {
    let mut disk = Disk::default();
    let repo = new_repo(&mut disk);
    write(&mut disk, "/repo/.env", "ENV=local");
    write(&mut disk, "/repo/.env.dev", "ENV=dev");

    disk.run(repo.use_environment("dev").unwrap()).unwrap();

    assert_eq!(disk.read(&get_current_path(repo.path())), Some(String::from("dev")));
    assert_eq!(disk.read(&get_local_env_path(&repo)), Some(String::from("ENV=dev")));
}

#[test]
fn should_backup_local_env() {
    let mut disk = Disk::default();
    let repo = new_repo(&mut disk);
    write(&mut disk, "/repo/.env", "ENV=local");
    write(&mut disk, "/repo/.env.dev", "ENV=dev");

    disk.run(repo.use_environment("dev").unwrap()).unwrap();
    assert_eq!(disk.read(&get_local_backup_path(&repo)), Some(String::from("ENV=local")));
}

#[test]
fn should_use_backup_local_env_use_local_env() {
    let mut disk = Disk::default();
    let repo = new_repo(&mut disk);
    write(&mut disk, "/repo/.env", "ENV=local");
    write(&mut disk, "/repo/.env.dev", "ENV=dev");
    disk.run(repo.use_environment("dev").unwrap()).unwrap();
    write(&mut disk, "/repo/.envm/.env.backup", "ENV=backup");

    let repo = disk.reload(&repo);
    disk.run(repo.use_environment("local").unwrap()).unwrap();
    assert_eq!(disk.read(&get_local_env_path(&repo)), Some(String::from("ENV=backup")));
}

#[test]
fn backup_restore_round_trip() {
    let mut disk = Disk::default();
    let repo = new_repo(&mut disk);
    write(&mut disk, "/repo/.env", "ENV=local");
    write(&mut disk, "/repo/.env.dev", "ENV=dev");

    disk.run(repo.use_environment("dev").unwrap()).unwrap();
    assert_eq!(disk.read(&RepoPath::new("/repo/.env")), Some(String::from("ENV=dev")));
    assert_eq!(disk.read(&RepoPath::new("/repo/.envm/.env.backup")), Some(String::from("ENV=local")));
    let repo = disk.reload(&repo);
    assert!(matches!(repo.current_env(), envm::environment::EnvType::Other(n) if n == "dev"));

    disk.run(repo.use_environment("local").unwrap()).unwrap();
    assert_eq!(disk.read(&RepoPath::new("/repo/.env")), Some(String::from("ENV=local")));
    assert_eq!(disk.read(&RepoPath::new("/repo/.envm/HEAD")), Some(String::from("local")));
    let repo = disk.reload(&repo);
    assert!(matches!(repo.current_env(), envm::environment::EnvType::Local));
}

#[test]
fn switching_twice_is_rejected() {
    let mut disk = Disk::default();
    let repo = new_repo(&mut disk);
    write(&mut disk, "/repo/.env", "ENV=local");
    write(&mut disk, "/repo/.env.dev", "ENV=dev");
    disk.run(repo.use_environment("dev").unwrap()).unwrap();
    let repo = disk.reload(&repo);
    assert!(matches!(
        repo.use_environment("dev"),
        Err(EnvmError::AlreadyUsingTargetEnvironment(n)) if n == "dev"
    ));
    assert!(matches!(
        Repository::new(RepoPath::new("/repo")).use_environment("local"),
        Err(EnvmError::AlreadyUsingTargetEnvironment(n)) if n == "local"
    ));
}

#[test]
fn switch_errors() {
    let mut disk = Disk::default();
    let repo = new_repo(&mut disk);
    write(&mut disk, "/repo/.env", "ENV=local");
    assert!(matches!(
        disk.run(repo.use_environment("qa").unwrap()),
        Err(EnvmError::MissingTargetEnvironment(n)) if n == "qa"
    ));
    assert!(matches!(
        repo.use_environment("dev/../../x"),
        Err(EnvmError::InvalidEnvironmentName(n)) if n == "dev/../../x"
    ));
    let mut bare = Disk::default();
    let repo = new_repo(&mut bare);
    write(&mut bare, "/repo/.env.dev", "ENV=dev");
    assert!(matches!(
        bare.run(repo.use_environment("dev").unwrap()),
        Err(EnvmError::FailedToBackupLocalEnvironment)
    ));
    let named = disk.reload(&repo);
    let dev = Repository::open(named.path().duplicate(), named.config().duplicate(), "dev");
    assert!(matches!(
        bare.run(dev.use_environment("local").unwrap()),
        Err(EnvmError::MissingBackupEnvironment)
    ));
}

#[test]
fn should_new_target_env_file() {
    let mut disk = Disk::default();
    let repo = new_repo(&mut disk);
    write(&mut disk, "/repo/.env.example", "ENV=");

    disk.run(repo.new_environment("dev").unwrap()).unwrap();

    let dev_path = get_env_path(&repo, "dev").unwrap();
    assert_eq!(disk.read(&dev_path), Some(String::from("ENV=")));
    assert!(matches!(
        disk.run(repo.new_environment("dev").unwrap()),
        Err(EnvmError::TargetEnvironmentAlreadyExists(n)) if n == "dev"
    ));
}

#[test]
fn should_new_local_env_file_by_config() {
    let mut disk = Disk::default();
    let repo = new_repo(&mut disk);
    write(&mut disk, "/repo/.env.example", "ENV=");

    disk.run(repo.new_environment("local").unwrap()).unwrap();

    assert!(disk.holds(&get_local_env_path(&repo)));
}

#[test]
fn new_env_without_template_fails() {
    let mut disk = Disk::default();
    let repo = new_repo(&mut disk);
    assert!(matches!(
        disk.run(repo.new_environment("dev").unwrap()),
        Err(EnvmError::MissingTemplateEnvironment(n)) if n == ".env.example"
    ));
}

#[test]
fn should_list_env() {
    let repo = Repository::new(RepoPath::new("/repo"));
    let names = vec![
        String::from(".env.example"),
        String::from(".env.dev"),
        String::from(".env.production"),
        String::from(".env"),
        String::from("README.md"),
    ];
    assert_eq!(repo.list_environments(&names), vec!["dev", "production"]);
}

#[test]
fn list_matches_pattern_literally() {
    let config = Config::with_names(
        String::from(".env"),
        String::from("env+{}.(cfg)"),
        String::from("env+example.(cfg)"),
    )
    .unwrap();
    let repo = Repository::open(RepoPath::new("/repo"), config, "local");
    let names = vec![
        String::from("env+dev.(cfg)"),
        String::from("envvdev.(cfg)"),
        String::from("env+qa.(cfg)x"),
        String::from("env+example.(cfg)"),
        String::from("env+.(cfg)"),
    ];
    assert_eq!(repo.list_environments(&names), vec!["dev", ""]);
}

#[test]
fn should_remove_env() {
    let mut disk = Disk::default();
    let repo = new_repo(&mut disk);
    write(&mut disk, "/repo/.env.example", "ENV=");
    write(&mut disk, "/repo/.env.dev", "ENV=dev");

    disk.run(repo.remove_environment("dev").unwrap()).unwrap();
    let dev_path = get_env_path(&repo, "dev").unwrap();
    assert!(!disk.holds(&dev_path));
    assert!(matches!(
        disk.run(repo.remove_environment("dev").unwrap()),
        Err(EnvmError::MissingTargetEnvironment(n)) if n == "dev"
    ));
}

#[test]
fn should_not_remove_current_env() {
    let mut disk = Disk::default();
    let repo = new_repo(&mut disk);

    match repo.remove_environment("local") {
        Ok(_) => panic!("Should not remove the using environment"),
        Err(e) => {
            assert!(matches!(e, EnvmError::RemovingUsingEnvironment(env) if env == "local"))
        }
    };
    write(&mut disk, "/repo/.env.dev", "ENV=dev");
    let dev = Repository::open(RepoPath::new("/repo"), Config::new(), "dev");
    assert!(matches!(
        dev.remove_environment("dev"),
        Err(EnvmError::RemovingUsingEnvironment(env)) if env == "dev"
    ));
    let qa = Repository::open(RepoPath::new("/repo"), Config::new(), "qa");
    assert!(matches!(
        qa.remove_environment("qa"),
        Err(EnvmError::RemovingUsingEnvironment(env)) if env == "qa"
    ));
}

#[test]
fn config_rejects_pattern_without_single_placeholder() {
    let make = |p: &str| Config::with_names(String::from(".env"), String::from(p), String::from(".env.example"));
    assert!(matches!(make(".env.dev"), Err(EnvmError::FailedToParseConfig)));
    assert!(matches!(make(".env.{}.{}"), Err(EnvmError::FailedToParseConfig)));
    assert!(matches!(make(&"x".repeat(5000)), Err(EnvmError::FailedToParseConfig)));
    assert!(make("{}.env").is_ok());
    let c = Config::new();
    assert_eq!(c.local(), ".env");
    assert_eq!(c.pattern(), ".env.{}");
    assert_eq!(c.template(), ".env.example");
    assert_eq!(c.expand("qa"), ".env.qa");
}

#[test]
fn error_messages() {
    assert_eq!(
        EnvmError::MissingTargetEnvironment(String::from("dev")).message(),
        "cannot found the dev environment"
    );
    assert_eq!(
        EnvmError::NotEnvmRepository.message(),
        "not a envm repository (or any of the parent directories)"
    );
    assert_eq!(
        EnvmError::AlreadyUsingTargetEnvironment(String::from("dev")).message(),
        "already using 'dev' environment"
    );
    assert_eq!(
        EnvmError::RemovingUsingEnvironment(String::from("local")).message(),
        "cannot remove current using environment: local"
    );
    assert_eq!(
        EnvmError::InvalidEnvironmentName(String::from("../x")).message(),
        "the target environment is invalid: ../x"
    );
}

#[test]
fn list_includes_names_with_line_feed() {
    let repo = Repository::new(RepoPath::new("/repo"));
    let names = vec![String::from(".env.a\nb"), String::from(".env.\n")];
    assert_eq!(repo.list_environments(&names), vec!["a\nb", "\n"]);
}

#[test]
fn new_env_uses_name_as_given() {
    let mut disk = Disk::default();
    let repo = new_repo(&mut disk);
    write(&mut disk, "/repo/.env.example", "ENV=");
    write(&mut disk, "/repo/.env.dev", "ENV=dev");
    disk.run(repo.new_environment(" dev").unwrap()).unwrap();
    assert_eq!(disk.read(&RepoPath::new("/repo/.env. dev")), Some(String::from("ENV=")));
    assert_eq!(disk.read(&RepoPath::new("/repo/.env.dev")), Some(String::from("ENV=dev")));
    assert!(matches!(
        disk.run(repo.new_environment(" dev").unwrap()),
        Err(EnvmError::TargetEnvironmentAlreadyExists(n)) if n == " dev"
    ));
}

#[test]
fn new_env_checks_template_first() {
    let mut disk = Disk::default();
    let repo = new_repo(&mut disk);
    assert!(matches!(
        disk.run(repo.new_environment("   ").unwrap()),
        Err(EnvmError::MissingTemplateEnvironment(n)) if n == ".env.example"
    ));
    assert!(matches!(
        repo.new_environment("a/b"),
        Err(EnvmError::InvalidEnvironmentName(n)) if n == "a/b"
    ));
}
