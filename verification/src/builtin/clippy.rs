//! The builtin scout for clippy.

use vstd::prelude::*;

use crate::error::LintScoutError;
use crate::pattern::pattern_compiles;
use crate::rule::Rule;
use crate::scout::Scout;

verus! {

/// Whether every pattern text of this scout is one the engine accepts.
pub open spec fn patterns_compile() -> bool {
    &&& pattern_compiles(r"#\[allow\(clippy::"@)
    &&& pattern_compiles(r"#\[allow\(clippy::([^)]+)\)"@)
    &&& pattern_compiles(r"#!\[allow\(clippy::"@)
    &&& pattern_compiles(r"#!\[allow\(clippy::([^)]+)\)"@)
}

/// Whether `s` is this module's scout: its tags, the file types it owns
/// and its rules, every field fixed.
pub open spec fn is_scout(s: Scout) -> bool {
    &&& s.wf()
    &&& s.name@ == "clippy"@
    &&& s.linter@ == "clippy"@
    &&& s.language@ == "rust"@
    &&& s.extensions@.len() == 1
    &&& s.extensions@[0]@ == "rs"@
    &&& s.rules@.len() == 2
    &&& s.rules@[0].id@ == "allow-clippy"@
    &&& s.rules@[0].description@ == "Clippy allow attribute"@
    &&& s.rules@[0].pattern_str@ == r"#\[allow\(clippy::"@
    &&& (s.rules@[0].capture_pattern_str matches Some(c) && c@ == r"#\[allow\(clippy::([^)]+)\)"@)
    &&& s.rules@[1].id@ == "allow-clippy-file"@
    &&& s.rules@[1].description@ == "Clippy file-level allow attribute"@
    &&& s.rules@[1].pattern_str@ == r"#!\[allow\(clippy::"@
    &&& (s.rules@[1].capture_pattern_str matches Some(c) && c@ == r"#!\[allow\(clippy::([^)]+)\)"@)
}

/// The builtin scout for clippy: its suppression-directive patterns
/// and the file types it owns; succeeds exactly when every pattern
/// compiles.
pub fn scout() -> (r: Result<Scout, LintScoutError>)
    ensures
        r is Ok <==> patterns_compile(),
        r is Ok ==> is_scout(r->Ok_0),
        r is Err ==> r->Err_0 is InvalidPattern,
{
    let rule0 = Rule::new("allow-clippy", "Clippy allow attribute", r"#\[allow\(clippy::")?.with_capture(r"#\[allow\(clippy::([^)]+)\)")?;
    let rule1 = Rule::new("allow-clippy-file", "Clippy file-level allow attribute", r"#!\[allow\(clippy::")?.with_capture(r"#!\[allow\(clippy::([^)]+)\)")?;
    let mut extensions: Vec<String> = Vec::new();
    extensions.push("rs".to_owned());
    let mut rules: Vec<Rule> = Vec::new();
    rules.push(rule0);
    rules.push(rule1);
    let s = Scout {
        name: "clippy".to_owned(),
        linter: "clippy".to_owned(),
        language: "rust".to_owned(),
        extensions,
        rules,
    };
    proof {
        assert forall|k: int| 0 <= k < s.rules@.len() implies (#[trigger] s.rules@[k]).wf() by {}
    }
    Ok(s)
}

} // verus!
