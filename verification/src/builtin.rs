//! The fixed builtin scout catalog: one module per supported linter,
//! composed in a set order.

pub mod bandit;
pub mod biome;
pub mod clang_tidy;
pub mod clippy;
pub mod cppcheck;
pub mod detekt;
pub mod eslint;
pub mod flake8;
pub mod golangci;
pub mod gosec;
pub mod hadolint;
pub mod java;
pub mod jshint;
pub mod ktlint;
pub mod mypy;
pub mod oxlint;
pub mod phpstan;
pub mod prettier;
pub mod pylint;
pub mod pyright;
pub mod rubocop;
pub mod ruff;
pub mod shellcheck;
pub mod staticcheck;
pub mod stylelint;
pub mod swiftlint;
pub mod typescript;

use vstd::prelude::*;

use crate::error::LintScoutError;
use crate::scanner::scouts_wf;
use crate::scout::Scout;

verus! {

/// Whether every pattern text of the builtin catalog is one the engine
/// accepts.  The catalog builds exactly when this holds; a violation is a
/// build defect, not a runtime condition.
pub open spec fn builtin_patterns_compile() -> bool {
    &&& eslint::patterns_compile()
    &&& typescript::patterns_compile()
    &&& biome::patterns_compile()
    &&& prettier::patterns_compile()
    &&& jshint::patterns_compile()
    &&& pylint::patterns_compile()
    &&& flake8::patterns_compile()
    &&& mypy::patterns_compile()
    &&& pyright::patterns_compile()
    &&& bandit::patterns_compile()
    &&& golangci::patterns_compile()
    &&& gosec::patterns_compile()
    &&& staticcheck::patterns_compile()
    &&& java::patterns_compile()
    &&& detekt::patterns_compile()
    &&& rubocop::patterns_compile()
    &&& clang_tidy::patterns_compile()
    &&& cppcheck::patterns_compile()
    &&& stylelint::patterns_compile()
    &&& shellcheck::patterns_compile()
    &&& hadolint::patterns_compile()
    &&& swiftlint::patterns_compile()
    &&& ruff::patterns_compile()
    &&& oxlint::patterns_compile()
    &&& clippy::patterns_compile()
    &&& phpstan::patterns_compile()
    &&& ktlint::patterns_compile()
}

/// Whether `s` is the whole builtin catalog: the 27 fixed scouts, every
/// field pinned, in the set order.
pub open spec fn is_builtin_catalog(s: Seq<Scout>) -> bool {
    &&& s.len() == 27
    &&& eslint::is_scout(s[0])
    &&& typescript::is_scout(s[1])
    &&& biome::is_scout(s[2])
    &&& prettier::is_scout(s[3])
    &&& jshint::is_scout(s[4])
    &&& pylint::is_scout(s[5])
    &&& flake8::is_scout(s[6])
    &&& mypy::is_scout(s[7])
    &&& pyright::is_scout(s[8])
    &&& bandit::is_scout(s[9])
    &&& golangci::is_scout(s[10])
    &&& gosec::is_scout(s[11])
    &&& staticcheck::is_scout(s[12])
    &&& java::is_scout(s[13])
    &&& detekt::is_scout(s[14])
    &&& rubocop::is_scout(s[15])
    &&& clang_tidy::is_scout(s[16])
    &&& cppcheck::is_scout(s[17])
    &&& stylelint::is_scout(s[18])
    &&& shellcheck::is_scout(s[19])
    &&& hadolint::is_scout(s[20])
    &&& swiftlint::is_scout(s[21])
    &&& ruff::is_scout(s[22])
    &&& oxlint::is_scout(s[23])
    &&& clippy::is_scout(s[24])
    &&& phpstan::is_scout(s[25])
    &&& ktlint::is_scout(s[26])
}

/// The whole builtin catalog, in its set order; succeeds exactly when
/// every builtin pattern compiles.  A failure is a build defect: the
/// error is propagated, never swallowed.
pub fn all() -> (r: Result<Vec<Scout>, LintScoutError>)
    ensures
        r is Ok <==> builtin_patterns_compile(),
        r is Ok ==> is_builtin_catalog(r->Ok_0@) && scouts_wf(r->Ok_0@),
        r is Err ==> r->Err_0 is InvalidPattern,
{
    let mut v: Vec<Scout> = Vec::new();
    v.push(eslint::scout()?);
    v.push(typescript::scout()?);
    v.push(biome::scout()?);
    v.push(prettier::scout()?);
    v.push(jshint::scout()?);
    v.push(pylint::scout()?);
    v.push(flake8::scout()?);
    v.push(mypy::scout()?);
    v.push(pyright::scout()?);
    v.push(bandit::scout()?);
    v.push(golangci::scout()?);
    v.push(gosec::scout()?);
    v.push(staticcheck::scout()?);
    v.push(java::scout()?);
    v.push(detekt::scout()?);
    v.push(rubocop::scout()?);
    v.push(clang_tidy::scout()?);
    v.push(cppcheck::scout()?);
    v.push(stylelint::scout()?);
    v.push(shellcheck::scout()?);
    v.push(hadolint::scout()?);
    v.push(swiftlint::scout()?);
    v.push(ruff::scout()?);
    v.push(oxlint::scout()?);
    v.push(clippy::scout()?);
    v.push(phpstan::scout()?);
    v.push(ktlint::scout()?);
    proof {
        assert forall|k: int| 0 <= k < v@.len() implies (#[trigger] v@[k]).wf() by {}
    }
    Ok(v)
}

} // verus!
