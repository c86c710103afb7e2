//! The builtin scout for mypy.

use vstd::prelude::*;

use crate::error::LintScoutError;
use crate::pattern::pattern_compiles;
use crate::rule::Rule;
use crate::scout::Scout;

verus! {

/// Whether every pattern text of this scout is one the engine accepts.
pub open spec fn patterns_compile() -> bool {
    &&& pattern_compiles(r"#\s*type:\s*ignore"@)
    &&& pattern_compiles(r"#\s*type:\s*ignore\[([^\]]+)\]"@)
}

/// Whether `s` is this module's scout: its tags, the file types it owns
/// and its rules, every field fixed.
pub open spec fn is_scout(s: Scout) -> bool {
    &&& s.wf()
    &&& s.name@ == "mypy"@
    &&& s.linter@ == "mypy"@
    &&& s.language@ == "python"@
    &&& s.extensions@.len() == 2
    &&& s.extensions@[0]@ == "py"@
    &&& s.extensions@[1]@ == "pyi"@
    &&& s.rules@.len() == 1
    &&& s.rules@[0].id@ == "type-ignore"@
    &&& s.rules@[0].description@ == "Mypy type ignore directive"@
    &&& s.rules@[0].pattern_str@ == r"#\s*type:\s*ignore"@
    &&& (s.rules@[0].capture_pattern_str matches Some(c) && c@ == r"#\s*type:\s*ignore\[([^\]]+)\]"@)
}

/// The builtin scout for mypy: its suppression-directive patterns
/// and the file types it owns; succeeds exactly when every pattern
/// compiles.
pub fn scout() -> (r: Result<Scout, LintScoutError>)
    ensures
        r is Ok <==> patterns_compile(),
        r is Ok ==> is_scout(r->Ok_0),
        r is Err ==> r->Err_0 is InvalidPattern,
{
    let rule0 = Rule::new("type-ignore", "Mypy type ignore directive", r"#\s*type:\s*ignore")?.with_capture(r"#\s*type:\s*ignore\[([^\]]+)\]")?;
    let mut extensions: Vec<String> = Vec::new();
    extensions.push("py".to_owned());
    extensions.push("pyi".to_owned());
    let mut rules: Vec<Rule> = Vec::new();
    rules.push(rule0);
    let s = Scout {
        name: "mypy".to_owned(),
        linter: "mypy".to_owned(),
        language: "python".to_owned(),
        extensions,
        rules,
    };
    proof {
        assert forall|k: int| 0 <= k < s.rules@.len() implies (#[trigger] s.rules@[k]).wf() by {}
    }
    Ok(s)
}

} // verus!
