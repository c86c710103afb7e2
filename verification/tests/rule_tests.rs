use lintscout::rule::Rule;

#[test]
fn valid_pattern() {
    let rule = Rule::new("test", "A test rule", r"eslint-disable").unwrap();
    assert!(rule.is_match("// eslint-disable-next-line"));
    assert!(!rule.is_match("normal code"));
}

#[test]
fn invalid_pattern() {
    let result = Rule::new("bad", "Bad pattern", r"[invalid");
    assert!(result.is_err());
}

#[test]
fn pattern_str_preserved() {
    let rule = Rule::new("t", "t", r"foo\d+").unwrap();
    assert_eq!(rule.pattern_str, r"foo\d+");
}

#[test]
fn capture_suppressed_rules_extracts() {
    let rule = Rule::new("test", "test", r"eslint-disable-next-line")
        .unwrap()
        .with_capture(r"eslint-disable-next-line\s+(.+)")
        .unwrap();
    let result = rule.capture_suppressed_rules("// eslint-disable-next-line no-alert, no-console");
    assert_eq!(
        result,
        Some(vec!["no-alert".to_string(), "no-console".to_string()])
    );
}

#[test]
fn capture_returns_none_without_pattern() {
    let rule = Rule::new("test", "test", r"eslint-disable").unwrap();
    assert!(rule.capture_suppressed_rules("// eslint-disable").is_none());
}

#[test]
fn capture_returns_none_when_no_match() {
    let rule = Rule::new("test", "test", r"eslint-disable")
        .unwrap()
        .with_capture(r"eslint-disable-next-line\s+(.+)")
        .unwrap();
    assert!(rule.capture_suppressed_rules("// eslint-disable").is_none());
}

#[test]
fn invalid_capture_pattern() {
    let result = Rule::new("test", "test", r"foo")
        .unwrap()
        .with_capture(r"[invalid");
    assert!(result.is_err());
}

#[test]
fn error_message_carries_pattern() {
    let err = match Rule::new("bad", "Bad pattern", r"[invalid") {
        Err(e) => e,
        Ok(_) => panic!("expected a pattern error"),
    };
    assert_eq!(err.message(), "invalid regex pattern '[invalid'");
}
