use lintscout::rule::Rule;
use lintscout::scout::Scout;

fn test_scout() -> Scout {
    Scout {
        name: "test".to_string(),
        linter: "test-linter".to_string(),
        language: "test-lang".to_string(),
        extensions: vec!["js".to_string(), "ts".to_string(), "Dockerfile".to_string()],
        rules: vec![
            Rule::new("r1", "rule one", r"eslint-disable").unwrap(),
            Rule::new("r2", "rule two", r"@ts-ignore").unwrap(),
        ],
    }
}

#[test]
fn applies_to_matching_extension() {
    let s = test_scout();
    assert!(s.applies_to_file("src/app.js"));
    assert!(s.applies_to_file("index.ts"));
}

#[test]
fn does_not_apply_to_wrong_extension() {
    let s = test_scout();
    assert!(!s.applies_to_file("styles.css"));
}

#[test]
fn applies_to_filename_match() {
    let s = test_scout();
    assert!(s.applies_to_file("path/to/Dockerfile"));
}

#[test]
fn applies_to_is_case_sensitive() {
    let s = test_scout();
    assert!(!s.applies_to_file("path/to/dockerfile.txt"));
    assert!(!s.applies_to_file("app.JS"));
}

#[test]
fn find_matches_returns_matching_rules() {
    let s = test_scout();
    let m = s.find_matches("// eslint-disable-next-line");
    assert_eq!(m.len(), 1);
    assert_eq!(m[0].id, "r1");
}

#[test]
fn find_matches_returns_empty_for_no_match() {
    let s = test_scout();
    let m = s.find_matches("normal code");
    assert!(m.is_empty());
}
