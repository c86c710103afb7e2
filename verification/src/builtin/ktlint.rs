//! The builtin scout for ktlint.

use vstd::prelude::*;

use crate::error::LintScoutError;
use crate::pattern::pattern_compiles;
use crate::rule::Rule;
use crate::scout::Scout;

verus! {

/// Whether every pattern text of this scout is one the engine accepts.
pub open spec fn patterns_compile() -> bool {
    &&& pattern_compiles(r"ktlint-disable"@)
    &&& pattern_compiles(r"ktlint-disable\s+(.+)"@)
    &&& pattern_compiles(r#"@Suppress\("ktlint:"#@)
    &&& pattern_compiles(r#"@Suppress\("ktlint:([^"]+)"#@)
}

/// Whether `s` is this module's scout: its tags, the file types it owns
/// and its rules, every field fixed.
pub open spec fn is_scout(s: Scout) -> bool {
    &&& s.wf()
    &&& s.name@ == "ktlint"@
    &&& s.linter@ == "ktlint"@
    &&& s.language@ == "kotlin"@
    &&& s.extensions@.len() == 2
    &&& s.extensions@[0]@ == "kt"@
    &&& s.extensions@[1]@ == "kts"@
    &&& s.rules@.len() == 2
    &&& s.rules@[0].id@ == "ktlint-disable"@
    &&& s.rules@[0].description@ == "ktlint disable directive"@
    &&& s.rules@[0].pattern_str@ == r"ktlint-disable"@
    &&& (s.rules@[0].capture_pattern_str matches Some(c) && c@ == r"ktlint-disable\s+(.+)"@)
    &&& s.rules@[1].id@ == "suppress-ktlint"@
    &&& s.rules@[1].description@ == "Kotlin Suppress annotation for ktlint"@
    &&& s.rules@[1].pattern_str@ == r#"@Suppress\("ktlint:"#@
    &&& (s.rules@[1].capture_pattern_str matches Some(c) && c@ == r#"@Suppress\("ktlint:([^"]+)"#@)
}

/// The builtin scout for ktlint: its suppression-directive patterns
/// and the file types it owns; succeeds exactly when every pattern
/// compiles.
pub fn scout() -> (r: Result<Scout, LintScoutError>)
    ensures
        r is Ok <==> patterns_compile(),
        r is Ok ==> is_scout(r->Ok_0),
        r is Err ==> r->Err_0 is InvalidPattern,
{
    let rule0 = Rule::new("ktlint-disable", "ktlint disable directive", r"ktlint-disable")?.with_capture(r"ktlint-disable\s+(.+)")?;
    let rule1 = Rule::new("suppress-ktlint", "Kotlin Suppress annotation for ktlint", r#"@Suppress\("ktlint:"#)?.with_capture(r#"@Suppress\("ktlint:([^"]+)"#)?;
    let mut extensions: Vec<String> = Vec::new();
    extensions.push("kt".to_owned());
    extensions.push("kts".to_owned());
    let mut rules: Vec<Rule> = Vec::new();
    rules.push(rule0);
    rules.push(rule1);
    let s = Scout {
        name: "ktlint".to_owned(),
        linter: "ktlint".to_owned(),
        language: "kotlin".to_owned(),
        extensions,
        rules,
    };
    proof {
        assert forall|k: int| 0 <= k < s.rules@.len() implies (#[trigger] s.rules@[k]).wf() by {}
    }
    Ok(s)
}

} // verus!
