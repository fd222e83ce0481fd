use envm::config::Config;
use envm::gitignore::{envm_patterns, Gitignore};
use envm::path::RepoPath;

fn gitignore_of(content: &str) -> Gitignore {
    Gitignore::new(RepoPath::new("/repo/.gitignore"), String::from(content))
}

#[test]
fn test_ignore_section_patterns() {
    let content = "node_modules/\n*.log\n";
    let mut gitignore = gitignore_of(content);
    let patterns = vec![".envm".to_string(), ".env".to_string()];
    gitignore.ignore_patterns_section("envm", patterns);

    let result = gitignore.text();
    assert!(result.contains("# envm"));
    assert!(result.contains(".envm"));
    assert!(result.contains(".env"));
    assert!(result.starts_with("node_modules/\n*.log"));
    assert_eq!(result, "node_modules/\n*.log\n\n# envm\n.envm\n.env\n");
}

#[test]
fn test_ignore_section_patterns_removes_duplicates() {
    let content = "node_modules/\n.envm\n*.log\n.env\n";
    let mut gitignore = gitignore_of(content);
    let patterns = vec![".envm".to_string(), ".env".to_string()];
    gitignore.ignore_patterns_section("envm", patterns);

    let result = gitignore.text();
    let envm_count = result.matches(".envm").count();
    assert_eq!(envm_count, 1);
    let env_lines = result.lines().filter(|line| line.trim() == ".env").count();
    assert_eq!(env_lines, 1);
}

#[test]
fn remove_pattern_on_empty_and_trimmed_lines() {
    let mut g = gitignore_of("");
    g.remove_pattern(".env");
    assert_eq!(g.text(), "");
    let mut g = gitignore_of("  .env  \r\nkeep");
    g.remove_pattern(".env ");
    assert_eq!(g.text(), "keep\n");
    let mut g = gitignore_of(".env\n");
    g.ignore_patterns_section("envm", vec![".env".to_string()]);
    assert_eq!(g.text(), "# envm\n.env\n");
    assert_eq!(g.location().to_string(), "/repo/.gitignore");
}

#[test]
fn patterns_from_config() {
    assert_eq!(
        envm_patterns(&Config::new()),
        vec![".envm", ".env", ".env.*", "!.env.example"]
    );
}
