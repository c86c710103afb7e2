//! The builtin scout for detekt.

use vstd::prelude::*;

use crate::error::LintScoutError;
use crate::pattern::pattern_compiles;
use crate::rule::Rule;
use crate::scout::Scout;

verus! {

/// Whether every pattern text of this scout is one the engine accepts.
pub open spec fn patterns_compile() -> bool {
    &&& pattern_compiles(r"@Suppress\("@)
    &&& pattern_compiles(r#"@Suppress\("([^"]*)"#@)
    &&& pattern_compiles(r"@file:Suppress"@)
    &&& pattern_compiles(r#"@file:Suppress\("([^"]*)"#@)
}

/// Whether `s` is this module's scout: its tags, the file types it owns
/// and its rules, every field fixed.
pub open spec fn is_scout(s: Scout) -> bool {
    &&& s.wf()
    &&& s.name@ == "detekt"@
    &&& s.linter@ == "detekt"@
    &&& s.language@ == "kotlin"@
    &&& s.extensions@.len() == 2
    &&& s.extensions@[0]@ == "kt"@
    &&& s.extensions@[1]@ == "kts"@
    &&& s.rules@.len() == 2
    &&& s.rules@[0].id@ == "suppress"@
    &&& s.rules@[0].description@ == "Kotlin/Detekt Suppress annotation"@
    &&& s.rules@[0].pattern_str@ == r"@Suppress\("@
    &&& (s.rules@[0].capture_pattern_str matches Some(c) && c@ == r#"@Suppress\("([^"]*)"#@)
    &&& s.rules@[1].id@ == "file-suppress"@
    &&& s.rules@[1].description@ == "Kotlin/Detekt file-level Suppress"@
    &&& s.rules@[1].pattern_str@ == r"@file:Suppress"@
    &&& (s.rules@[1].capture_pattern_str matches Some(c) && c@ == r#"@file:Suppress\("([^"]*)"#@)
}

/// The builtin scout for detekt: its suppression-directive patterns
/// and the file types it owns; succeeds exactly when every pattern
/// compiles.
pub fn scout() -> (r: Result<Scout, LintScoutError>)
    ensures
        r is Ok <==> patterns_compile(),
        r is Ok ==> is_scout(r->Ok_0),
        r is Err ==> r->Err_0 is InvalidPattern,
{
    let rule0 = Rule::new("suppress", "Kotlin/Detekt Suppress annotation", r"@Suppress\(")?.with_capture(r#"@Suppress\("([^"]*)"#)?;
    let rule1 = Rule::new("file-suppress", "Kotlin/Detekt file-level Suppress", r"@file:Suppress")?.with_capture(r#"@file:Suppress\("([^"]*)"#)?;
    let mut extensions: Vec<String> = Vec::new();
    extensions.push("kt".to_owned());
    extensions.push("kts".to_owned());
    let mut rules: Vec<Rule> = Vec::new();
    rules.push(rule0);
    rules.push(rule1);
    let s = Scout {
        name: "detekt".to_owned(),
        linter: "detekt".to_owned(),
        language: "kotlin".to_owned(),
        extensions,
        rules,
    };
    proof {
        assert forall|k: int| 0 <= k < s.rules@.len() implies (#[trigger] s.rules@[k]).wf() by {}
    }
    Ok(s)
}

} // verus!
