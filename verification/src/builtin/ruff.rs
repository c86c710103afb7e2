//! The builtin scout for ruff.

use vstd::prelude::*;

use crate::error::LintScoutError;
use crate::pattern::pattern_compiles;
use crate::rule::Rule;
use crate::scout::Scout;

verus! {

/// Whether every pattern text of this scout is one the engine accepts.
pub open spec fn patterns_compile() -> bool {
    &&& pattern_compiles(r"#\s*ruff:\s*noqa"@)
    &&& pattern_compiles(r"#\s*ruff:\s*noqa:\s*(.+)"@)
}

/// Whether `s` is this module's scout: its tags, the file types it owns
/// and its rules, every field fixed.
pub open spec fn is_scout(s: Scout) -> bool {
    &&& s.wf()
    &&& s.name@ == "ruff"@
    &&& s.linter@ == "ruff"@
    &&& s.language@ == "python"@
    &&& s.extensions@.len() == 1
    &&& s.extensions@[0]@ == "py"@
    &&& s.rules@.len() == 1
    &&& s.rules@[0].id@ == "ruff-noqa"@
    &&& s.rules@[0].description@ == "Ruff noqa directive"@
    &&& s.rules@[0].pattern_str@ == r"#\s*ruff:\s*noqa"@
    &&& (s.rules@[0].capture_pattern_str matches Some(c) && c@ == r"#\s*ruff:\s*noqa:\s*(.+)"@)
}

/// The builtin scout for ruff: its suppression-directive patterns
/// and the file types it owns; succeeds exactly when every pattern
/// compiles.
pub fn scout() -> (r: Result<Scout, LintScoutError>)
    ensures
        r is Ok <==> patterns_compile(),
        r is Ok ==> is_scout(r->Ok_0),
        r is Err ==> r->Err_0 is InvalidPattern,
{
    let rule0 = Rule::new("ruff-noqa", "Ruff noqa directive", r"#\s*ruff:\s*noqa")?.with_capture(r"#\s*ruff:\s*noqa:\s*(.+)")?;
    let mut extensions: Vec<String> = Vec::new();
    extensions.push("py".to_owned());
    let mut rules: Vec<Rule> = Vec::new();
    rules.push(rule0);
    let s = Scout {
        name: "ruff".to_owned(),
        linter: "ruff".to_owned(),
        language: "python".to_owned(),
        extensions,
        rules,
    };
    proof {
        assert forall|k: int| 0 <= k < s.rules@.len() implies (#[trigger] s.rules@[k]).wf() by {}
    }
    Ok(s)
}

} // verus!
