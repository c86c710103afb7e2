//! The builtin scout for typescript.

use vstd::prelude::*;

use crate::error::LintScoutError;
use crate::pattern::pattern_compiles;
use crate::rule::Rule;
use crate::scout::Scout;

verus! {

/// Whether every pattern text of this scout is one the engine accepts.
pub open spec fn patterns_compile() -> bool {
    &&& pattern_compiles(r"@ts-ignore"@)
    &&& pattern_compiles(r"@ts-nocheck"@)
    &&& pattern_compiles(r"@ts-expect-error"@)
}

/// Whether `s` is this module's scout: its tags, the file types it owns
/// and its rules, every field fixed.
pub open spec fn is_scout(s: Scout) -> bool {
    &&& s.wf()
    &&& s.name@ == "typescript"@
    &&& s.linter@ == "typescript"@
    &&& s.language@ == "typescript"@
    &&& s.extensions@.len() == 2
    &&& s.extensions@[0]@ == "ts"@
    &&& s.extensions@[1]@ == "tsx"@
    &&& s.rules@.len() == 3
    &&& s.rules@[0].id@ == "ts-ignore"@
    &&& s.rules@[0].description@ == "TypeScript ignore directive"@
    &&& s.rules@[0].pattern_str@ == r"@ts-ignore"@
    &&& s.rules@[0].capture_pattern_str is None
    &&& s.rules@[1].id@ == "ts-nocheck"@
    &&& s.rules@[1].description@ == "TypeScript nocheck directive"@
    &&& s.rules@[1].pattern_str@ == r"@ts-nocheck"@
    &&& s.rules@[1].capture_pattern_str is None
    &&& s.rules@[2].id@ == "ts-expect-error"@
    &&& s.rules@[2].description@ == "TypeScript expect-error directive"@
    &&& s.rules@[2].pattern_str@ == r"@ts-expect-error"@
    &&& s.rules@[2].capture_pattern_str is None
}

/// The builtin scout for typescript: its suppression-directive patterns
/// and the file types it owns; succeeds exactly when every pattern
/// compiles.
pub fn scout() -> (r: Result<Scout, LintScoutError>)
    ensures
        r is Ok <==> patterns_compile(),
        r is Ok ==> is_scout(r->Ok_0),
        r is Err ==> r->Err_0 is InvalidPattern,
{
    let rule0 = Rule::new("ts-ignore", "TypeScript ignore directive", r"@ts-ignore")?;
    let rule1 = Rule::new("ts-nocheck", "TypeScript nocheck directive", r"@ts-nocheck")?;
    let rule2 = Rule::new("ts-expect-error", "TypeScript expect-error directive", r"@ts-expect-error")?;
    let mut extensions: Vec<String> = Vec::new();
    extensions.push("ts".to_owned());
    extensions.push("tsx".to_owned());
    let mut rules: Vec<Rule> = Vec::new();
    rules.push(rule0);
    rules.push(rule1);
    rules.push(rule2);
    let s = Scout {
        name: "typescript".to_owned(),
        linter: "typescript".to_owned(),
        language: "typescript".to_owned(),
        extensions,
        rules,
    };
    proof {
        assert forall|k: int| 0 <= k < s.rules@.len() implies (#[trigger] s.rules@[k]).wf() by {}
    }
    Ok(s)
}

} // verus!
