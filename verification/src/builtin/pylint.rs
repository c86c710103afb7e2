//! The builtin scout for pylint.

use vstd::prelude::*;

use crate::error::LintScoutError;
use crate::pattern::pattern_compiles;
use crate::rule::Rule;
use crate::scout::Scout;

verus! {

/// Whether every pattern text of this scout is one the engine accepts.
pub open spec fn patterns_compile() -> bool {
    &&& pattern_compiles(r"pylint:\s*disable"@)
    &&& pattern_compiles(r"pylint:\s*disable-next"@)
}

/// Whether `s` is this module's scout: its tags, the file types it owns
/// and its rules, every field fixed.
pub open spec fn is_scout(s: Scout) -> bool {
    &&& s.wf()
    &&& s.name@ == "pylint"@
    &&& s.linter@ == "pylint"@
    &&& s.language@ == "python"@
    &&& s.extensions@.len() == 1
    &&& s.extensions@[0]@ == "py"@
    &&& s.rules@.len() == 2
    &&& s.rules@[0].id@ == "pylint-disable"@
    &&& s.rules@[0].description@ == "Pylint disable directive"@
    &&& s.rules@[0].pattern_str@ == r"pylint:\s*disable"@
    &&& s.rules@[0].capture_pattern_str is None
    &&& s.rules@[1].id@ == "pylint-disable-next"@
    &&& s.rules@[1].description@ == "Pylint disable-next directive"@
    &&& s.rules@[1].pattern_str@ == r"pylint:\s*disable-next"@
    &&& s.rules@[1].capture_pattern_str is None
}

/// The builtin scout for pylint: its suppression-directive patterns
/// and the file types it owns; succeeds exactly when every pattern
/// compiles.
pub fn scout() -> (r: Result<Scout, LintScoutError>)
    ensures
        r is Ok <==> patterns_compile(),
        r is Ok ==> is_scout(r->Ok_0),
        r is Err ==> r->Err_0 is InvalidPattern,
{
    let rule0 = Rule::new("pylint-disable", "Pylint disable directive", r"pylint:\s*disable")?;
    let rule1 = Rule::new("pylint-disable-next", "Pylint disable-next directive", r"pylint:\s*disable-next")?;
    let mut extensions: Vec<String> = Vec::new();
    extensions.push("py".to_owned());
    let mut rules: Vec<Rule> = Vec::new();
    rules.push(rule0);
    rules.push(rule1);
    let s = Scout {
        name: "pylint".to_owned(),
        linter: "pylint".to_owned(),
        language: "python".to_owned(),
        extensions,
        rules,
    };
    proof {
        assert forall|k: int| 0 <= k < s.rules@.len() implies (#[trigger] s.rules@[k]).wf() by {}
    }
    Ok(s)
}

} // verus!
