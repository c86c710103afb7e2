//! The builtin scout for golangci-lint.

use vstd::prelude::*;

use crate::error::LintScoutError;
use crate::pattern::pattern_compiles;
use crate::rule::Rule;
use crate::scout::Scout;

verus! {

/// Whether every pattern text of this scout is one the engine accepts.
pub open spec fn patterns_compile() -> bool {
    &&& pattern_compiles(r"//\s*nolint"@)
    &&& pattern_compiles(r"//\s*nolint:([^\s]+)"@)
}

/// Whether `s` is this module's scout: its tags, the file types it owns
/// and its rules, every field fixed.
pub open spec fn is_scout(s: Scout) -> bool {
    &&& s.wf()
    &&& s.name@ == "golangci-lint"@
    &&& s.linter@ == "golangci-lint"@
    &&& s.language@ == "go"@
    &&& s.extensions@.len() == 1
    &&& s.extensions@[0]@ == "go"@
    &&& s.rules@.len() == 1
    &&& s.rules@[0].id@ == "nolint"@
    &&& s.rules@[0].description@ == "golangci-lint nolint directive"@
    &&& s.rules@[0].pattern_str@ == r"//\s*nolint"@
    &&& (s.rules@[0].capture_pattern_str matches Some(c) && c@ == r"//\s*nolint:([^\s]+)"@)
}

/// The builtin scout for golangci-lint: its suppression-directive patterns
/// and the file types it owns; succeeds exactly when every pattern
/// compiles.
pub fn scout() -> (r: Result<Scout, LintScoutError>)
    ensures
        r is Ok <==> patterns_compile(),
        r is Ok ==> is_scout(r->Ok_0),
        r is Err ==> r->Err_0 is InvalidPattern,
{
    let rule0 = Rule::new("nolint", "golangci-lint nolint directive", r"//\s*nolint")?.with_capture(r"//\s*nolint:([^\s]+)")?;
    let mut extensions: Vec<String> = Vec::new();
    extensions.push("go".to_owned());
    let mut rules: Vec<Rule> = Vec::new();
    rules.push(rule0);
    let s = Scout {
        name: "golangci-lint".to_owned(),
        linter: "golangci-lint".to_owned(),
        language: "go".to_owned(),
        extensions,
        rules,
    };
    proof {
        assert forall|k: int| 0 <= k < s.rules@.len() implies (#[trigger] s.rules@[k]).wf() by {}
    }
    Ok(s)
}

} // verus!
