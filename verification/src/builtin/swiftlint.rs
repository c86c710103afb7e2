//! The builtin scout for swiftlint.

use vstd::prelude::*;

use crate::error::LintScoutError;
use crate::pattern::pattern_compiles;
use crate::rule::Rule;
use crate::scout::Scout;

verus! {

/// Whether every pattern text of this scout is one the engine accepts.
pub open spec fn patterns_compile() -> bool {
    &&& pattern_compiles(r"swiftlint:(disable|enable)"@)
}

/// Whether `s` is this module's scout: its tags, the file types it owns
/// and its rules, every field fixed.
pub open spec fn is_scout(s: Scout) -> bool {
    &&& s.wf()
    &&& s.name@ == "swiftlint"@
    &&& s.linter@ == "swiftlint"@
    &&& s.language@ == "swift"@
    &&& s.extensions@.len() == 1
    &&& s.extensions@[0]@ == "swift"@
    &&& s.rules@.len() == 1
    &&& s.rules@[0].id@ == "swiftlint-directive"@
    &&& s.rules@[0].description@ == "SwiftLint disable/enable directive"@
    &&& s.rules@[0].pattern_str@ == r"swiftlint:(disable|enable)"@
    &&& s.rules@[0].capture_pattern_str is None
}

/// The builtin scout for swiftlint: its suppression-directive patterns
/// and the file types it owns; succeeds exactly when every pattern
/// compiles.
pub fn scout() -> (r: Result<Scout, LintScoutError>)
    ensures
        r is Ok <==> patterns_compile(),
        r is Ok ==> is_scout(r->Ok_0),
        r is Err ==> r->Err_0 is InvalidPattern,
{
    let rule0 = Rule::new("swiftlint-directive", "SwiftLint disable/enable directive", r"swiftlint:(disable|enable)")?;
    let mut extensions: Vec<String> = Vec::new();
    extensions.push("swift".to_owned());
    let mut rules: Vec<Rule> = Vec::new();
    rules.push(rule0);
    let s = Scout {
        name: "swiftlint".to_owned(),
        linter: "swiftlint".to_owned(),
        language: "swift".to_owned(),
        extensions,
        rules,
    };
    proof {
        assert forall|k: int| 0 <= k < s.rules@.len() implies (#[trigger] s.rules@[k]).wf() by {}
    }
    Ok(s)
}

} // verus!
