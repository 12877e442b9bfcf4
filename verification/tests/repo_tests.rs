use dadmin::filter::Filter;
use dadmin::repo::DirEntry;
use dadmin::repo::enumerate;
use dadmin::repo::lex_le_exec;

fn entry(name: &str, is_git: bool) -> DirEntry {
    DirEntry { name: name.to_string(), is_git }
}

fn names(targets: &[dadmin::repo::RepositoryTarget]) -> Vec<String> {
    targets.iter().map(|t| t.name.clone()).collect()
}

#[test]
fn enumerate_filters_by_pattern() {
    let entries = vec![entry("alpha", true), entry("beta-test", true), entry("gamma", true)];
    let filter = Some(Filter::compile("beta").unwrap());
    let targets = enumerate(entries, &filter);
    assert_eq!(names(&targets), vec!["beta-test".to_string()]);
}

#[test]
fn enumerate_orders_lexicographically() {
    let entries = vec![entry("gamma", true), entry("alpha", true), entry("beta-test", true)];
    let targets = enumerate(entries, &None);
    assert_eq!(
        names(&targets),
        vec!["alpha".to_string(), "beta-test".to_string(), "gamma".to_string()]
    );
}

#[test]
fn enumerate_is_stable_under_scan_order() {
    let a = vec![entry("gamma", true), entry("alpha", true), entry("beta-test", true)];
    let b = vec![entry("beta-test", true), entry("gamma", true), entry("alpha", true)];
    let ta = enumerate(a, &None);
    let tb = enumerate(b, &None);
    assert_eq!(names(&ta), names(&tb));
}

#[test]
fn enumerate_skips_non_git_directories() {
    let entries = vec![entry("alpha", true), entry("notes", false), entry("gamma", true)];
    let targets = enumerate(entries, &None);
    assert_eq!(names(&targets), vec!["alpha".to_string(), "gamma".to_string()]);
}

#[test]
fn enumerate_of_nothing_is_empty() {
    let targets = enumerate(Vec::new(), &None);
    assert!(targets.is_empty());
}

#[test]
fn lexicographic_comparison() {
    assert!(lex_le_exec("alpha", "beta"));
    assert!(!lex_le_exec("beta", "alpha"));
    assert!(lex_le_exec("alpha", "alpha"));
    assert!(lex_le_exec("alp", "alpha"));
    assert!(!lex_le_exec("alpha", "alp"));
    assert!(lex_le_exec("", "a"));
}
