use lintscout::builtin;

#[test]
fn bandit_scout_compiles() {
    assert!(builtin::bandit::scout().is_ok());
}

#[test]
fn bandit_matches_nosec() {
    let s = builtin::bandit::scout().unwrap();
    assert!(!s.find_matches("x = eval('1')  # nosec").is_empty());
    assert!(!s.find_matches("x = eval('1')  # nosec B307").is_empty());
}

#[test]
fn biome_scout_compiles() {
    assert!(builtin::biome::scout().is_ok());
}

#[test]
fn matches_biome_directive() {
    let s = builtin::biome::scout().unwrap();
    assert!(!s
        .find_matches("// biome-ignore lint/style: reason")
        .is_empty());
}

#[test]
fn biome_no_false_positives() {
    let s = builtin::biome::scout().unwrap();
    assert!(s.find_matches("const biome = 'grassland';").is_empty());
}

#[test]
fn clang_tidy_scout_compiles() {
    assert!(builtin::clang_tidy::scout().is_ok());
}

#[test]
fn matches_nolint_directives() {
    let s = builtin::clang_tidy::scout().unwrap();
    assert!(!s.find_matches("int x = 1; // NOLINT").is_empty());
    assert!(!s
        .find_matches("int x = 1; // NOLINT(cert-err58-cpp)")
        .is_empty());
    assert!(!s.find_matches("// NOLINTNEXTLINE").is_empty());
    assert!(!s.find_matches("// NOLINTBEGIN").is_empty());
    assert!(!s.find_matches("// NOLINTEND").is_empty());
}

#[test]
fn clippy_scout_compiles() {
    assert!(builtin::clippy::scout().is_ok());
}

#[test]
fn matches_clippy_directives() {
    let s = builtin::clippy::scout().unwrap();
    assert!(!s
        .find_matches("#[allow(clippy::needless_return)]")
        .is_empty());
    assert!(!s.find_matches("#![allow(clippy::all)]").is_empty());
    assert!(!s
        .find_matches("#[allow(clippy::too_many_arguments)]")
        .is_empty());
}

#[test]
fn clippy_no_false_positives() {
    let s = builtin::clippy::scout().unwrap();
    assert!(s.find_matches("#[allow(dead_code)]").is_empty());
    assert!(s.find_matches("use clippy;").is_empty());
}

#[test]
fn cppcheck_scout_compiles() {
    assert!(builtin::cppcheck::scout().is_ok());
}

#[test]
fn matches_cppcheck_suppress() {
    let s = builtin::cppcheck::scout().unwrap();
    assert!(!s.find_matches("// cppcheck-suppress uninitvar").is_empty());
}

#[test]
fn detekt_scout_compiles() {
    assert!(builtin::detekt::scout().is_ok());
}

#[test]
fn matches_suppress() {
    let s = builtin::detekt::scout().unwrap();
    assert!(!s.find_matches("@Suppress(\"MaxLineLength\")").is_empty());
    assert!(!s
        .find_matches("@file:Suppress(\"TooManyFunctions\")")
        .is_empty());
}

#[test]
fn eslint_scout_compiles() {
    assert!(builtin::eslint::scout().is_ok());
}

#[test]
fn matches_eslint_directives() {
    let s = builtin::eslint::scout().unwrap();
    assert!(!s
        .find_matches("// eslint-disable-next-line no-unused-vars")
        .is_empty());
    assert!(!s.find_matches("/* eslint-disable */").is_empty());
    assert!(!s.find_matches("/* eslint-enable */").is_empty());
    assert!(!s.find_matches("// eslint-disable-line no-alert").is_empty());
}

#[test]
fn eslint_no_false_positives() {
    let s = builtin::eslint::scout().unwrap();
    assert!(s
        .find_matches("const eslint = require('eslint');")
        .is_empty());
    assert!(s.find_matches("normal code").is_empty());
}

#[test]
fn flake8_scout_compiles() {
    assert!(builtin::flake8::scout().is_ok());
}

#[test]
fn matches_noqa() {
    let s = builtin::flake8::scout().unwrap();
    assert!(!s.find_matches("import os  # noqa").is_empty());
    assert!(!s.find_matches("import os  # noqa: F401").is_empty());
}

#[test]
fn golangci_scout_compiles() {
    assert!(builtin::golangci::scout().is_ok());
}

#[test]
fn matches_nolint() {
    let s = builtin::golangci::scout().unwrap();
    assert!(!s.find_matches("x := 1 //nolint:errcheck").is_empty());
    assert!(!s.find_matches("x := 1 // nolint").is_empty());
}

#[test]
fn gosec_scout_compiles() {
    assert!(builtin::gosec::scout().is_ok());
}

#[test]
fn gosec_matches_nosec() {
    let s = builtin::gosec::scout().unwrap();
    assert!(!s.find_matches("_ = x //#nosec G101").is_empty());
    assert!(!s.find_matches("// #nosec").is_empty());
}

#[test]
fn hadolint_scout_compiles() {
    assert!(builtin::hadolint::scout().is_ok());
}

#[test]
fn matches_hadolint_ignore() {
    let s = builtin::hadolint::scout().unwrap();
    assert!(!s.find_matches("# hadolint ignore=DL3008").is_empty());
}

#[test]
fn java_scout_compiles() {
    assert!(builtin::java::scout().is_ok());
}

#[test]
fn matches_java_directives() {
    let s = builtin::java::scout().unwrap();
    assert!(!s
        .find_matches("@SuppressWarnings(\"unchecked\")")
        .is_empty());
    assert!(!s.find_matches("// CHECKSTYLE: OFF").is_empty());
    assert!(!s.find_matches("// CHECKSTYLE: ON").is_empty());
    assert!(!s.find_matches("} // NOPMD").is_empty());
    assert!(!s.find_matches("@SuppressFBWarnings(\"NP\")").is_empty());
}

#[test]
fn jshint_scout_compiles() {
    assert!(builtin::jshint::scout().is_ok());
}

#[test]
fn matches_jshint_directive() {
    let s = builtin::jshint::scout().unwrap();
    assert!(!s.find_matches("/* jshint ignore:start */").is_empty());
}

#[test]
fn ktlint_scout_compiles() {
    assert!(builtin::ktlint::scout().is_ok());
}

#[test]
fn matches_ktlint_directives() {
    let s = builtin::ktlint::scout().unwrap();
    assert!(!s
        .find_matches("// ktlint-disable no-wildcard-imports")
        .is_empty());
    assert!(!s
        .find_matches("@Suppress(\"ktlint:standard:no-wildcard-imports\")")
        .is_empty());
}

#[test]
fn ktlint_no_false_positives() {
    let s = builtin::ktlint::scout().unwrap();
    assert!(s.find_matches("import ktlint").is_empty());
}

#[test]
fn mypy_scout_compiles() {
    assert!(builtin::mypy::scout().is_ok());
}

#[test]
fn matches_type_ignore() {
    let s = builtin::mypy::scout().unwrap();
    assert!(!s.find_matches("x = 1  # type: ignore").is_empty());
    assert!(!s
        .find_matches("x = 1  # type: ignore[attr-defined]")
        .is_empty());
}

#[test]
fn oxlint_scout_compiles() {
    assert!(builtin::oxlint::scout().is_ok());
}

#[test]
fn matches_oxlint_directives() {
    let s = builtin::oxlint::scout().unwrap();
    assert!(!s
        .find_matches("// oxlint-disable-next-line no-unused-vars")
        .is_empty());
    assert!(!s.find_matches("/* oxlint-disable */").is_empty());
    assert!(!s.find_matches("/* oxlint-enable */").is_empty());
    assert!(!s.find_matches("// oxlint-disable-line no-alert").is_empty());
}

#[test]
fn oxlint_no_false_positives() {
    let s = builtin::oxlint::scout().unwrap();
    assert!(s
        .find_matches("const oxlint = require('oxlint');")
        .is_empty());
    assert!(s.find_matches("normal code").is_empty());
}

#[test]
fn phpstan_scout_compiles() {
    assert!(builtin::phpstan::scout().is_ok());
}

#[test]
fn matches_phpstan_directives() {
    let s = builtin::phpstan::scout().unwrap();
    assert!(!s
        .find_matches("/** @phpstan-ignore-next-line */")
        .is_empty());
    assert!(!s.find_matches("// @phpstan-ignore-line").is_empty());
    assert!(!s
        .find_matches("// @phpstan-ignore argument.type")
        .is_empty());
}

#[test]
fn phpstan_no_false_positives() {
    let s = builtin::phpstan::scout().unwrap();
    assert!(s.find_matches("use PHPStan;").is_empty());
}

#[test]
fn prettier_scout_compiles() {
    assert!(builtin::prettier::scout().is_ok());
}

#[test]
fn matches_prettier_directive() {
    let s = builtin::prettier::scout().unwrap();
    assert!(!s.find_matches("// prettier-ignore").is_empty());
    assert!(!s.find_matches("/* prettier-ignore */").is_empty());
}

#[test]
fn pylint_scout_compiles() {
    assert!(builtin::pylint::scout().is_ok());
}

#[test]
fn matches_pylint_directives() {
    let s = builtin::pylint::scout().unwrap();
    assert!(!s
        .find_matches("x = 1  # pylint: disable=invalid-name")
        .is_empty());
    assert!(!s
        .find_matches("# pylint: disable-next=unused-variable")
        .is_empty());
}

#[test]
fn pylint_no_false_positives() {
    let s = builtin::pylint::scout().unwrap();
    assert!(s.find_matches("import pylint").is_empty());
}

#[test]
fn pyright_scout_compiles() {
    assert!(builtin::pyright::scout().is_ok());
}

#[test]
fn matches_pyright_ignore() {
    let s = builtin::pyright::scout().unwrap();
    assert!(!s
        .find_matches("x = 1  # pyright: ignore[reportGeneralTypeIssues]")
        .is_empty());
}

#[test]
fn rubocop_scout_compiles() {
    assert!(builtin::rubocop::scout().is_ok());
}

#[test]
fn matches_rubocop_directives() {
    let s = builtin::rubocop::scout().unwrap();
    assert!(!s
        .find_matches("# rubocop:disable Style/NumericLiterals")
        .is_empty());
    assert!(!s.find_matches("# rubocop:enable all").is_empty());
    assert!(!s
        .find_matches("# rubocop:todo Metrics/MethodLength")
        .is_empty());
}

#[test]
fn ruff_scout_compiles() {
    assert!(builtin::ruff::scout().is_ok());
}

#[test]
fn matches_ruff_noqa() {
    let s = builtin::ruff::scout().unwrap();
    assert!(!s.find_matches("# ruff: noqa").is_empty());
    assert!(!s.find_matches("# ruff: noqa: F401").is_empty());
}

#[test]
fn ruff_no_false_positives() {
    let s = builtin::ruff::scout().unwrap();
    assert!(s.find_matches("import ruff").is_empty());
    assert!(s.find_matches("# noqa: F401").is_empty());
}

#[test]
fn shellcheck_scout_compiles() {
    assert!(builtin::shellcheck::scout().is_ok());
}

#[test]
fn matches_shellcheck_disable() {
    let s = builtin::shellcheck::scout().unwrap();
    assert!(!s.find_matches("# shellcheck disable=SC2034").is_empty());
}

#[test]
fn staticcheck_scout_compiles() {
    assert!(builtin::staticcheck::scout().is_ok());
}

#[test]
fn matches_lint_ignore() {
    let s = builtin::staticcheck::scout().unwrap();
    assert!(!s.find_matches("//lint:ignore SA1000 reason").is_empty());
    assert!(!s
        .find_matches("//lint:file-ignore SA1000 reason")
        .is_empty());
}

#[test]
fn stylelint_scout_compiles() {
    assert!(builtin::stylelint::scout().is_ok());
}

#[test]
fn matches_stylelint_directives() {
    let s = builtin::stylelint::scout().unwrap();
    assert!(!s
        .find_matches("/* stylelint-disable color-named */")
        .is_empty());
    assert!(!s.find_matches("/* stylelint-enable */").is_empty());
}

#[test]
fn swiftlint_scout_compiles() {
    assert!(builtin::swiftlint::scout().is_ok());
}

#[test]
fn matches_swiftlint_directives() {
    let s = builtin::swiftlint::scout().unwrap();
    assert!(!s.find_matches("// swiftlint:disable force_cast").is_empty());
    assert!(!s.find_matches("// swiftlint:enable force_cast").is_empty());
}

#[test]
fn typescript_scout_compiles() {
    assert!(builtin::typescript::scout().is_ok());
}

#[test]
fn matches_ts_directives() {
    let s = builtin::typescript::scout().unwrap();
    assert!(!s.find_matches("// @ts-ignore").is_empty());
    assert!(!s.find_matches("// @ts-nocheck").is_empty());
    assert!(!s.find_matches("// @ts-expect-error").is_empty());
}

#[test]
fn typescript_no_false_positives() {
    let s = builtin::typescript::scout().unwrap();
    assert!(s.find_matches("const tsconfig = {};").is_empty());
}

#[test]
fn all_builtin_patterns_compile() {
    let scouts = builtin::all().expect("all builtin scouts should compile");
    assert_eq!(scouts.len(), 27);
    for scout in &scouts {
        assert!(!scout.name.is_empty());
        assert!(!scout.rules.is_empty());
        assert!(!scout.extensions.is_empty());
    }
}

