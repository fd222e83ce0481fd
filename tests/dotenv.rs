use envm::configuration::{compare, parse};
use envm::repository::Repository;
use envm::path::RepoPath;

#[test]
fn should_parse_dotenv() {
    let map = parse(
        r#"
        # here is comment

        APP_URL=http://localhost:3000
        "#,
    );

    assert_eq!(map.len(), 1);
    assert_eq!(
        map.get("APP_URL"),
        Some(&String::from("http://localhost:3000"))
    );
}

#[test]
fn dotenv_later_line_wins_and_keeps_place() {
    let map = parse("A=1\nB = two \nA=3\r\nnot a pair\n#C=4\n  D=x=y  ");
    assert_eq!(map.keys(), vec!["A", "B", "D"]);
    assert_eq!(map.get("A"), Some(&String::from("3")));
    assert_eq!(map.get("B"), Some(&String::from("two")));
    assert_eq!(map.get("D"), Some(&String::from("x=y")));
    assert_eq!(map.get("C"), None);
}

#[test]
fn dotenv_empty_value_and_empty_file() {
    let map = parse("KEY=\n");
    assert_eq!(map.get("KEY"), Some(&String::new()));
    assert_eq!(parse("").len(), 0);
    assert_eq!(parse("\n\n   \n").len(), 0);
}

#[test]
fn compare_reports_missing_and_extra() {
    let template = parse("A=\nB=\n");
    let target = parse("A=1\nC=2\n");
    let (missing, extra) = compare(&template, &target);
    assert_eq!(missing, Some(vec![String::from("B")]));
    assert_eq!(extra, Some(vec![String::from("C")]));
}

#[test]
fn compare_same_keys_reports_none() {
    let (missing, extra) = compare(&parse("A=1\nB=2"), &parse("B=x\nA=y"));
    assert_eq!(missing, None);
    assert_eq!(extra, None);
}

#[test]
fn compare_to_template_on_file_contents() {
    let repo = Repository::new(RepoPath::new("/repo"));
    let (missing, extra) = repo.compare_to_template("A=\nB=\n", "A=1\nC=2\n");
    assert_eq!(missing, Some(vec![String::from("B")]));
    assert_eq!(extra, Some(vec![String::from("C")]));
    let (missing, extra) = repo.compare_to_template("A=\nB=\nD=\n", "");
    assert_eq!(missing, Some(vec![String::from("A"), String::from("B"), String::from("D")]));
    assert_eq!(extra, None);
}
