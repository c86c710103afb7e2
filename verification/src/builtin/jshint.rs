//! The builtin scout for jshint.

use vstd::prelude::*;

use crate::error::LintScoutError;
use crate::pattern::pattern_compiles;
use crate::rule::Rule;
use crate::scout::Scout;

verus! {

/// Whether every pattern text of this scout is one the engine accepts.
pub open spec fn patterns_compile() -> bool {
    &&& pattern_compiles(r"jshint\s+ignore"@)
}

/// Whether `s` is this module's scout: its tags, the file types it owns
/// and its rules, every field fixed.
pub open spec fn is_scout(s: Scout) -> bool {
    &&& s.wf()
    &&& s.name@ == "jshint"@
    &&& s.linter@ == "jshint"@
    &&& s.language@ == "javascript"@
    &&& s.extensions@.len() == 1
    &&& s.extensions@[0]@ == "js"@
    &&& s.rules@.len() == 1
    &&& s.rules@[0].id@ == "jshint-ignore"@
    &&& s.rules@[0].description@ == "JSHint ignore directive"@
    &&& s.rules@[0].pattern_str@ == r"jshint\s+ignore"@
    &&& s.rules@[0].capture_pattern_str is None
}

/// The builtin scout for jshint: its suppression-directive patterns
/// and the file types it owns; succeeds exactly when every pattern
/// compiles.
pub fn scout() -> (r: Result<Scout, LintScoutError>)
    ensures
        r is Ok <==> patterns_compile(),
        r is Ok ==> is_scout(r->Ok_0),
        r is Err ==> r->Err_0 is InvalidPattern,
{
    let rule0 = Rule::new("jshint-ignore", "JSHint ignore directive", r"jshint\s+ignore")?;
    let mut extensions: Vec<String> = Vec::new();
    extensions.push("js".to_owned());
    let mut rules: Vec<Rule> = Vec::new();
    rules.push(rule0);
    let s = Scout {
        name: "jshint".to_owned(),
        linter: "jshint".to_owned(),
        language: "javascript".to_owned(),
        extensions,
        rules,
    };
    proof {
        assert forall|k: int| 0 <= k < s.rules@.len() implies (#[trigger] s.rules@[k]).wf() by {}
    }
    Ok(s)
}

} // verus!
