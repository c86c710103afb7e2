use lintscout::finding::Finding;
use lintscout::report::build_report;
use lintscout::scanner::ScanResult;
use lintscout::stats::ScanStats;

fn finding(path: &str, line_number: usize, suppressed: Option<Vec<&str>>) -> Finding {
    Finding {
        path: path.to_string(),
        line_number,
        line_text: "// eslint-disable-next-line no-alert".to_string(),
        scout_name: "eslint".to_string(),
        linter: "eslint".to_string(),
        rule_id: "eslint-disable-next-line".to_string(),
        rule_description: "ESLint disable next line".to_string(),
        suppressed_rules: suppressed
            .map(|v| v.into_iter().map(|s| s.to_string()).collect()),
    }
}

#[test]
fn sarif_output_structure() {
    let result = ScanResult {
        findings: vec![finding("test.js", 10, Some(vec!["no-alert"]))],
        stats: ScanStats::default(),
        errors: Vec::new(),
    };
    let report = build_report(&result);

    assert_eq!(report.rules.len(), 1);
    assert_eq!(report.rules[0].id, "eslint/eslint-disable-next-line");
    assert_eq!(report.rules[0].description, "ESLint disable next line");

    assert_eq!(report.results.len(), 1);
    let r = &report.results[0];
    assert_eq!(r.rule_id, "eslint/eslint-disable-next-line");
    assert_eq!(r.rule_index, 0);
    assert_eq!(r.path, "test.js");
    assert_eq!(r.start_line, 10);
    assert_eq!(r.linter, "eslint");
    assert_eq!(r.scout_name, "eslint");
    assert_eq!(r.suppressed_rules, Some(vec!["no-alert".to_string()]));
    assert_eq!(
        r.message,
        "ESLint disable next line: // eslint-disable-next-line no-alert (line: 10)"
    );
}

#[test]
fn sarif_deduplicates_rules() {
    let result = ScanResult {
        findings: vec![finding("a.js", 1, None), finding("b.js", 5, None)],
        stats: ScanStats::default(),
        errors: Vec::new(),
    };
    let report = build_report(&result);
    assert_eq!(report.rules.len(), 1);
    assert_eq!(report.results.len(), 2);
    assert_eq!(report.results[0].rule_index, 0);
    assert_eq!(report.results[1].rule_index, 0);
}

#[test]
fn report_index_resolves_to_matching_key() {
    let mut other = finding("c.py", 3, None);
    other.linter = "flake8".to_string();
    other.rule_id = "noqa".to_string();
    other.rule_description = "Flake8 noqa directive".to_string();
    let result = ScanResult {
        findings: vec![finding("a.js", 1, None), other, finding("b.js", 5, None)],
        stats: ScanStats::default(),
        errors: Vec::new(),
    };
    let report = build_report(&result);
    assert_eq!(report.rules.len(), 2);
    for r in &report.results {
        assert!(r.rule_index < report.rules.len());
        assert_eq!(report.rules[r.rule_index].id, r.rule_id);
    }
    assert_eq!(report.rules[0].id, "eslint/eslint-disable-next-line");
    assert_eq!(report.rules[1].id, "flake8/noqa");
}
