//! The builtin scout for bandit.

use vstd::prelude::*;

use crate::error::LintScoutError;
use crate::pattern::pattern_compiles;
use crate::rule::Rule;
use crate::scout::Scout;

verus! {

/// Whether every pattern text of this scout is one the engine accepts.
pub open spec fn patterns_compile() -> bool {
    &&& pattern_compiles(r"#\s*nosec"@)
}

/// Whether `s` is this module's scout: its tags, the file types it owns
/// and its rules, every field fixed.
pub open spec fn is_scout(s: Scout) -> bool {
    &&& s.wf()
    &&& s.name@ == "bandit"@
    &&& s.linter@ == "bandit"@
    &&& s.language@ == "python"@
    &&& s.extensions@.len() == 1
    &&& s.extensions@[0]@ == "py"@
    &&& s.rules@.len() == 1
    &&& s.rules@[0].id@ == "nosec"@
    &&& s.rules@[0].description@ == "Bandit nosec directive"@
    &&& s.rules@[0].pattern_str@ == r"#\s*nosec"@
    &&& s.rules@[0].capture_pattern_str is None
}

/// The builtin scout for bandit: its suppression-directive patterns
/// and the file types it owns; succeeds exactly when every pattern
/// compiles.
pub fn scout() -> (r: Result<Scout, LintScoutError>)
    ensures
        r is Ok <==> patterns_compile(),
        r is Ok ==> is_scout(r->Ok_0),
        r is Err ==> r->Err_0 is InvalidPattern,
{
    let rule0 = Rule::new("nosec", "Bandit nosec directive", r"#\s*nosec")?;
    let mut extensions: Vec<String> = Vec::new();
    extensions.push("py".to_owned());
    let mut rules: Vec<Rule> = Vec::new();
    rules.push(rule0);
    let s = Scout {
        name: "bandit".to_owned(),
        linter: "bandit".to_owned(),
        language: "python".to_owned(),
        extensions,
        rules,
    };
    proof {
        assert forall|k: int| 0 <= k < s.rules@.len() implies (#[trigger] s.rules@[k]).wf() by {}
    }
    Ok(s)
}

} // verus!
