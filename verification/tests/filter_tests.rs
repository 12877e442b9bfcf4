use dadmin::filter::Filter;
use dadmin::filter::FilterError;

#[test]
fn compile_rejects_empty_pattern() {
    let r = Filter::compile("");
    assert!(matches!(r, Err(FilterError::EmptyPattern)));
}

#[test]
fn compile_accepts_nonempty_pattern() {
    assert!(Filter::compile("beta").is_ok());
    assert!(Filter::compile("a").is_ok());
}

#[test]
fn matches_substring_anywhere() {
    let f = Filter::compile("beta").unwrap();
    assert!(f.matches("beta"));
    assert!(f.matches("beta-test"));
    assert!(f.matches("my-beta"));
    assert!(f.matches("a-beta-b"));
    assert!(!f.matches("alpha"));
    assert!(!f.matches("bet"));
    assert!(!f.matches(""));
}

#[test]
fn matches_is_case_sensitive() {
    let f = Filter::compile("Beta").unwrap();
    assert!(!f.matches("beta-test"));
    assert!(f.matches("Beta-test"));
}

#[test]
fn matches_is_deterministic_across_calls() {
    let f1 = Filter::compile("gam").unwrap();
    let f2 = Filter::compile("gam").unwrap();
    let names = ["gamma", "gambit", "alpha", "", "ga", "a-gam"];
    for n in names {
        let first = f1.matches(n);
        for _ in 0..3 {
            assert_eq!(f1.matches(n), first);
            assert_eq!(f2.matches(n), first);
        }
    }
}
