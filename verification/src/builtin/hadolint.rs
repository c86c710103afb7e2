//! The builtin scout for hadolint.

use vstd::prelude::*;

use crate::error::LintScoutError;
use crate::pattern::pattern_compiles;
use crate::rule::Rule;
use crate::scout::Scout;

verus! {

/// Whether every pattern text of this scout is one the engine accepts.
pub open spec fn patterns_compile() -> bool {
    &&& pattern_compiles(r"hadolint\s+ignore="@)
    &&& pattern_compiles(r"hadolint\s+ignore=(.+)"@)
}

/// Whether `s` is this module's scout: its tags, the file types it owns
/// and its rules, every field fixed.
pub open spec fn is_scout(s: Scout) -> bool {
    &&& s.wf()
    &&& s.name@ == "hadolint"@
    &&& s.linter@ == "hadolint"@
    &&& s.language@ == "dockerfile"@
    &&& s.extensions@.len() == 1
    &&& s.extensions@[0]@ == "Dockerfile"@
    &&& s.rules@.len() == 1
    &&& s.rules@[0].id@ == "hadolint-ignore"@
    &&& s.rules@[0].description@ == "Hadolint ignore directive"@
    &&& s.rules@[0].pattern_str@ == r"hadolint\s+ignore="@
    &&& (s.rules@[0].capture_pattern_str matches Some(c) && c@ == r"hadolint\s+ignore=(.+)"@)
}

/// The builtin scout for hadolint: its suppression-directive patterns
/// and the file types it owns; succeeds exactly when every pattern
/// compiles.
pub fn scout() -> (r: Result<Scout, LintScoutError>)
    ensures
        r is Ok <==> patterns_compile(),
        r is Ok ==> is_scout(r->Ok_0),
        r is Err ==> r->Err_0 is InvalidPattern,
{
    let rule0 = Rule::new("hadolint-ignore", "Hadolint ignore directive", r"hadolint\s+ignore=")?.with_capture(r"hadolint\s+ignore=(.+)")?;
    let mut extensions: Vec<String> = Vec::new();
    extensions.push("Dockerfile".to_owned());
    let mut rules: Vec<Rule> = Vec::new();
    rules.push(rule0);
    let s = Scout {
        name: "hadolint".to_owned(),
        linter: "hadolint".to_owned(),
        language: "dockerfile".to_owned(),
        extensions,
        rules,
    };
    proof {
        assert forall|k: int| 0 <= k < s.rules@.len() implies (#[trigger] s.rules@[k]).wf() by {}
    }
    Ok(s)
}

} // verus!
