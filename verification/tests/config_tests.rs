use lintscout::config::{Config, CustomRuleConfig, CustomScoutConfig, Settings};

fn custom(name: &str, extensions: Vec<&str>, rules: Vec<(&str, &str, &str)>) -> CustomScoutConfig {
    CustomScoutConfig {
        name: name.to_string(),
        linter: "custom".to_string(),
        language: "custom".to_string(),
        extensions: extensions.into_iter().map(|e| e.to_string()).collect(),
        rules: rules
            .into_iter()
            .map(|(id, description, pattern)| CustomRuleConfig {
                id: id.to_string(),
                description: description.to_string(),
                pattern: pattern.to_string(),
            })
            .collect(),
    }
}

#[test]
fn custom_scouts_build() {
    let config = Config {
        settings: Settings::default(),
        scouts: vec![custom("my-scout", vec!["py"], vec![("r1", "Rule 1", "foo.*bar")])],
    };
    let scouts = config.build_custom_scouts().unwrap();
    assert_eq!(scouts.len(), 1);
    assert_eq!(scouts[0].name, "my-scout");
}

#[test]
fn invalid_regex_in_config() {
    let config = Config {
        settings: Settings::default(),
        scouts: vec![custom("bad", vec!["py"], vec![("r1", "Bad rule", "[invalid")])],
    };
    let result = config.validate();
    assert!(result.is_err());
}

#[test]
fn missing_extensions_error() {
    let config = Config {
        settings: Settings::default(),
        scouts: vec![custom("bad", vec![], vec![("r1", "Rule", "foo")])],
    };
    let result = config.validate();
    assert!(result.is_err());
}

#[test]
fn missing_rules_error_message() {
    let config = Config {
        settings: Settings::default(),
        scouts: vec![custom("empty", vec!["py"], vec![])],
    };
    let err = match config.validate() {
        Err(e) => e,
        Ok(_) => panic!("expected a configuration error"),
    };
    assert_eq!(
        err.message(),
        "configuration error: custom scout 'empty' must have at least one rule"
    );
}

#[test]
fn default_settings_values() {
    let s = Settings::default();
    assert_eq!(s.exclude, vec!["node_modules", "vendor", "target", "dist"]);
    assert!(s.respect_gitignore);
    assert_eq!(s.output, "text");
    assert!(s.pass_threshold.is_none());
    assert!(s.disable.scouts.is_empty());
}

#[test]
fn validate_accepts_valid_config() {
    let config = Config {
        settings: Settings::default(),
        scouts: vec![custom("ok", vec!["py"], vec![("r1", "Rule 1", "foo.*bar")])],
    };
    assert!(config.validate().is_ok());
}

#[test]
fn second_scout_bad_pattern_detected() {
    let config = Config {
        settings: Settings::default(),
        scouts: vec![
            custom("good", vec!["py"], vec![("r1", "Rule 1", "foo")]),
            custom("bad", vec!["py"], vec![("r2", "Rule 2", "(unclosed")]),
        ],
    };
    assert!(config.validate().is_err());
    assert!(config.build_custom_scouts().is_err());
}

#[test]
fn invalid_pattern_error_names_scout_and_pattern() {
    let config = Config {
        settings: Settings::default(),
        scouts: vec![custom("bad", vec!["py"], vec![("r1", "Bad rule", "[invalid")])],
    };
    let err = match config.validate() {
        Err(e) => e,
        Ok(_) => panic!("expected a configuration error"),
    };
    assert_eq!(
        err.message(),
        "configuration error: custom scout 'bad' has invalid pattern '[invalid'"
    );
}

