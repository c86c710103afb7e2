use lintscout::config::{Config, CustomRuleConfig, CustomScoutConfig, Settings};
use lintscout::registry::ScoutRegistry;

#[test]
fn builtins_compose_in_full() {
    let scouts = ScoutRegistry::new().with_builtins().unwrap().into_scouts();
    assert_eq!(scouts.len(), 27);
    assert_eq!(scouts[0].name, "eslint");
}

#[test]
fn filter_retains_only_named_scouts() {
    let registry = ScoutRegistry::new().with_builtins().unwrap();
    let names = vec!["flake8".to_string(), "ruff".to_string()];
    let scouts = registry.filter(&names).into_scouts();
    assert_eq!(scouts.len(), 2);
    assert!(scouts.iter().all(|s| names.contains(&s.name)));
}

#[test]
fn empty_filter_means_no_filtering() {
    let registry = ScoutRegistry::new().with_builtins().unwrap();
    let scouts = registry.filter(&Vec::new()).into_scouts();
    assert_eq!(scouts.len(), 27);
}

#[test]
fn exclude_removes_named_scouts() {
    let registry = ScoutRegistry::new().with_builtins().unwrap();
    let scouts = registry.exclude(&vec!["eslint".to_string()]).into_scouts();
    assert_eq!(scouts.len(), 26);
    assert!(scouts.iter().all(|s| s.name != "eslint"));
}

#[test]
fn excluding_an_absent_name_is_not_an_error() {
    let registry = ScoutRegistry::new().with_builtins().unwrap();
    let scouts = registry.exclude(&vec!["no-such-scout".to_string()]).into_scouts();
    assert_eq!(scouts.len(), 27);
}

#[test]
fn config_scouts_follow_builtins() {
    let config = Config {
        settings: Settings::default(),
        scouts: vec![CustomScoutConfig {
            name: "my-scout".to_string(),
            linter: "custom".to_string(),
            language: "custom".to_string(),
            extensions: vec!["py".to_string()],
            rules: vec![CustomRuleConfig {
                id: "r1".to_string(),
                description: "Rule 1".to_string(),
                pattern: "foo".to_string(),
            }],
        }],
    };
    let scouts = ScoutRegistry::new()
        .with_builtins()
        .unwrap()
        .with_config(&config)
        .unwrap()
        .into_scouts();
    assert_eq!(scouts.len(), 28);
    assert_eq!(scouts[27].name, "my-scout");
}

#[test]
fn invalid_custom_pattern_aborts_composition() {
    let config = Config {
        settings: Settings::default(),
        scouts: vec![CustomScoutConfig {
            name: "bad".to_string(),
            linter: "custom".to_string(),
            language: "custom".to_string(),
            extensions: vec!["py".to_string()],
            rules: vec![CustomRuleConfig {
                id: "r1".to_string(),
                description: "Bad".to_string(),
                pattern: "[invalid".to_string(),
            }],
        }],
    };
    let result = ScoutRegistry::new().with_builtins().unwrap().with_config(&config);
    assert!(result.is_err());
}
