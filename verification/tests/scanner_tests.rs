use lintscout::finding::Finding;
use lintscout::rule::Rule;
use lintscout::scanner::{aggregate, file_read_failure, process_file_content, sort_findings,
    FileResult, Scanner};
use lintscout::scout::Scout;
use lintscout::stats::ScanStats;

fn noqa_scout() -> Scout {
    Scout {
        name: "flake8".to_string(),
        linter: "flake8".to_string(),
        language: "python".to_string(),
        extensions: vec!["py".to_string()],
        rules: vec![Rule::new("noqa", "Flake8 noqa directive", r"#\s*noqa")
            .unwrap()
            .with_capture(r"#\s*noqa:\s*(.+)")
            .unwrap()],
    }
}

fn js_scout() -> Scout {
    Scout {
        name: "eslint".to_string(),
        linter: "eslint".to_string(),
        language: "javascript".to_string(),
        extensions: vec!["js".to_string()],
        rules: vec![Rule::new("eslint-disable", "ESLint disable", r"eslint-disable").unwrap()],
    }
}

#[test]
fn scenario_noqa_yields_one_finding_with_identifier() {
    let scouts = vec![noqa_scout()];
    let fr = process_file_content(&scouts, "app.py", "import os  # noqa: F401\n");
    assert!(fr.scanned);
    assert_eq!(fr.findings.len(), 1);
    let f = &fr.findings[0];
    assert_eq!(f.path, "app.py");
    assert_eq!(f.line_number, 1);
    assert_eq!(f.line_text, "import os  # noqa: F401");
    assert_eq!(f.scout_name, "flake8");
    assert_eq!(f.rule_id, "noqa");
    assert_eq!(f.suppressed_rules, Some(vec!["F401".to_string()]));
}

#[test]
fn scenario_no_matching_scout_counts_skipped() {
    let scout = js_scout();
    // the same line, but no scout owns .py files: the walker never reads it
    assert!(!scout.applies_to_file("app.py"));
    let result = aggregate(1, Vec::new(), 1, Vec::new(), 0);
    assert_eq!(result.stats.files_walked, 1);
    assert_eq!(result.stats.files_scanned, 0);
    assert_eq!(result.stats.files_skipped, 1);
    assert_eq!(result.stats.findings_count, 0);
    assert!(result.findings.is_empty());
}

#[test]
fn scenario_ten_files_three_flagged() {
    let scouts = vec![js_scout()];
    let mut results: Vec<FileResult> = Vec::new();
    for name in ["a.js", "b.js", "c.js"] {
        results.push(process_file_content(&scouts, name, "// eslint-disable\n"));
    }
    // seven other files matched no scout and were never read
    let result = aggregate(10, Vec::new(), 7, results, 12);
    assert_eq!(result.stats.files_walked, 10);
    assert_eq!(result.stats.files_scanned, 3);
    assert_eq!(result.stats.files_skipped, 7);
    assert_eq!(result.stats.findings_count, 3);
    assert_eq!(result.stats.errors_count, 0);
    assert_eq!(result.stats.duration_ms, 12);
}

#[test]
fn scenario_unreadable_file_is_isolated() {
    let scouts = vec![js_scout()];
    let results = vec![
        file_read_failure("bad.js", "permission denied"),
        process_file_content(&scouts, "good.js", "// eslint-disable\n"),
    ];
    let result = aggregate(2, Vec::new(), 0, results, 0);
    assert!(result.stats.errors_count >= 1);
    assert_eq!(result.stats.errors_count, 1);
    assert_eq!(result.stats.files_scanned, 1);
    assert_eq!(result.stats.files_skipped, 1);
    assert_eq!(result.stats.findings_count, 1);
    assert_eq!(result.findings[0].path, "good.js");
    assert_eq!(result.errors, vec!["bad.js: permission denied".to_string()]);
}

#[test]
fn aggregation_is_order_independent() {
    let scouts = vec![js_scout(), noqa_scout()];
    let make = |order: &[&str]| {
        let mut results: Vec<FileResult> = Vec::new();
        for name in order {
            if name.ends_with(".js") {
                results.push(process_file_content(&scouts, name, "// eslint-disable\n"));
            } else {
                results.push(process_file_content(&scouts, name, "x = 1  # noqa: E501\n"));
            }
        }
        aggregate(3, Vec::new(), 0, results, 0)
    };
    let one = make(&["a.js", "b.py", "c.js"]);
    let two = make(&["c.js", "a.js", "b.py"]);
    assert_eq!(one.findings, two.findings);
    assert_eq!(one.stats, two.stats);
}

fn key_only(path: &str, line_number: usize, scout_name: &str, rule_id: &str) -> Finding {
    Finding {
        path: path.to_string(),
        line_number,
        line_text: "text".to_string(),
        scout_name: scout_name.to_string(),
        linter: "l".to_string(),
        rule_id: rule_id.to_string(),
        rule_description: "d".to_string(),
        suppressed_rules: None,
    }
}

#[test]
fn sort_orders_by_path_line_scout_rule() {
    let unsorted = vec![
        key_only("b.js", 1, "s", "r"),
        key_only("a.js", 9, "s", "r"),
        key_only("a.js", 2, "t", "r"),
        key_only("a.js", 2, "s", "r2"),
        key_only("a.js", 2, "s", "r1"),
    ];
    let sorted = sort_findings(unsorted);
    let keys: Vec<(&str, usize, &str, &str)> = sorted
        .iter()
        .map(|f| (f.path.as_str(), f.line_number, f.scout_name.as_str(), f.rule_id.as_str()))
        .collect();
    assert_eq!(
        keys,
        vec![
            ("a.js", 2, "s", "r1"),
            ("a.js", 2, "s", "r2"),
            ("a.js", 2, "t", "r"),
            ("a.js", 9, "s", "r"),
            ("b.js", 1, "s", "r"),
        ]
    );
}

#[test]
fn multiple_rules_can_match_one_line() {
    let scout = Scout {
        name: "multi".to_string(),
        linter: "multi".to_string(),
        language: "x".to_string(),
        extensions: vec!["js".to_string()],
        rules: vec![
            Rule::new("r1", "one", r"disable").unwrap(),
            Rule::new("r2", "two", r"eslint").unwrap(),
        ],
    };
    let fr = process_file_content(&vec![scout], "a.js", "// eslint-disable\n");
    assert_eq!(fr.findings.len(), 2);
    assert_eq!(fr.findings[0].rule_id, "r1");
    assert_eq!(fr.findings[1].rule_id, "r2");
}

#[test]
fn line_numbers_are_one_based_without_trailing_empty_line() {
    let scouts = vec![js_scout()];
    let fr = process_file_content(&scouts, "a.js", "ok\n// eslint-disable\nok\n");
    assert_eq!(fr.findings.len(), 1);
    assert_eq!(fr.findings[0].line_number, 2);
}

#[test]
fn stats_counters_step_by_one() {
    let mut stats = ScanStats::new();
    assert_eq!(stats, ScanStats::default());
    stats.files_walked_up();
    stats.files_walked_up();
    stats.files_scanned_up();
    stats.findings_count_up();
    assert_eq!(stats.files_walked, 2);
    assert_eq!(stats.get_files_scanned(), 1);
    assert_eq!(stats.get_findings_count(), 1);
    assert_eq!(stats.errors_count, 0);
}

#[test]
fn scanner_builders_set_configuration() {
    let scanner = Scanner::new("src", vec![js_scout()])
        .with_excludes(vec!["node_modules".to_string()])
        .with_gitignore(false);
    assert_eq!(scanner.root_path, "src");
    assert_eq!(scanner.scouts.len(), 1);
    assert_eq!(scanner.exclude_patterns, vec!["node_modules".to_string()]);
    assert!(!scanner.respect_gitignore);
}

#[test]
fn walk_errors_are_counted_and_kept() {
    let result = aggregate(
        3,
        vec!["walk error: loop".to_string()],
        0,
        Vec::new(),
        0,
    );
    assert_eq!(result.stats.errors_count, 1);
    assert_eq!(result.errors, vec!["walk error: loop".to_string()]);
}

#[test]
fn two_scouts_on_one_line_emit_in_scout_order() {
    let mut second = js_scout();
    second.name = "other".to_string();
    let scouts = vec![js_scout(), second];
    let fr = process_file_content(&scouts, "a.js", "// eslint-disable\n");
    assert_eq!(fr.findings.len(), 2);
    assert_eq!(fr.findings[0].scout_name, "eslint");
    assert_eq!(fr.findings[1].scout_name, "other");
}

#[test]
fn sort_is_stable_for_equal_keys() {
    let mut first = key_only("a.js", 1, "s", "r");
    first.line_text = "first".to_string();
    let mut second = key_only("a.js", 1, "s", "r");
    second.line_text = "second".to_string();
    let sorted = sort_findings(vec![
        key_only("b.js", 1, "s", "r"),
        first.clone(),
        second.clone(),
    ]);
    assert_eq!(sorted[0], first);
    assert_eq!(sorted[1], second);
    assert_eq!(sorted[2].path, "b.js");
}

