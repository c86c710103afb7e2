//! The builtin scout for oxlint.

use vstd::prelude::*;

use crate::error::LintScoutError;
use crate::pattern::pattern_compiles;
use crate::rule::Rule;
use crate::scout::Scout;

verus! {

/// Whether every pattern text of this scout is one the engine accepts.
pub open spec fn patterns_compile() -> bool {
    &&& pattern_compiles(r"oxlint-disable(?:\s|$)"@)
    &&& pattern_compiles(r"oxlint-disable\s+([^*]+)"@)
    &&& pattern_compiles(r"oxlint-disable-next-line"@)
    &&& pattern_compiles(r"oxlint-disable-next-line\s+([^*]+)"@)
    &&& pattern_compiles(r"oxlint-disable-line"@)
    &&& pattern_compiles(r"oxlint-disable-line\s+([^*]+)"@)
    &&& pattern_compiles(r"oxlint-enable"@)
    &&& pattern_compiles(r"oxlint-enable\s+([^*]+)"@)
}

/// Whether `s` is this module's scout: its tags, the file types it owns
/// and its rules, every field fixed.
pub open spec fn is_scout(s: Scout) -> bool {
    &&& s.wf()
    &&& s.name@ == "oxlint"@
    &&& s.linter@ == "oxlint"@
    &&& s.language@ == "javascript"@
    &&& s.extensions@.len() == 8
    &&& s.extensions@[0]@ == "js"@
    &&& s.extensions@[1]@ == "jsx"@
    &&& s.extensions@[2]@ == "ts"@
    &&& s.extensions@[3]@ == "tsx"@
    &&& s.extensions@[4]@ == "mjs"@
    &&& s.extensions@[5]@ == "cjs"@
    &&& s.extensions@[6]@ == "vue"@
    &&& s.extensions@[7]@ == "svelte"@
    &&& s.rules@.len() == 4
    &&& s.rules@[0].id@ == "oxlint-disable"@
    &&& s.rules@[0].description@ == "oxlint disable block directive"@
    &&& s.rules@[0].pattern_str@ == r"oxlint-disable(?:\s|$)"@
    &&& (s.rules@[0].capture_pattern_str matches Some(c) && c@ == r"oxlint-disable\s+([^*]+)"@)
    &&& s.rules@[1].id@ == "oxlint-disable-next-line"@
    &&& s.rules@[1].description@ == "oxlint disable next line"@
    &&& s.rules@[1].pattern_str@ == r"oxlint-disable-next-line"@
    &&& (s.rules@[1].capture_pattern_str matches Some(c) && c@ == r"oxlint-disable-next-line\s+([^*]+)"@)
    &&& s.rules@[2].id@ == "oxlint-disable-line"@
    &&& s.rules@[2].description@ == "oxlint disable current line"@
    &&& s.rules@[2].pattern_str@ == r"oxlint-disable-line"@
    &&& (s.rules@[2].capture_pattern_str matches Some(c) && c@ == r"oxlint-disable-line\s+([^*]+)"@)
    &&& s.rules@[3].id@ == "oxlint-enable"@
    &&& s.rules@[3].description@ == "oxlint re-enable directive"@
    &&& s.rules@[3].pattern_str@ == r"oxlint-enable"@
    &&& (s.rules@[3].capture_pattern_str matches Some(c) && c@ == r"oxlint-enable\s+([^*]+)"@)
}

/// The builtin scout for oxlint: its suppression-directive patterns
/// and the file types it owns; succeeds exactly when every pattern
/// compiles.
pub fn scout() -> (r: Result<Scout, LintScoutError>)
    ensures
        r is Ok <==> patterns_compile(),
        r is Ok ==> is_scout(r->Ok_0),
        r is Err ==> r->Err_0 is InvalidPattern,
{
    let rule0 = Rule::new("oxlint-disable", "oxlint disable block directive", r"oxlint-disable(?:\s|$)")?.with_capture(r"oxlint-disable\s+([^*]+)")?;
    let rule1 = Rule::new("oxlint-disable-next-line", "oxlint disable next line", r"oxlint-disable-next-line")?.with_capture(r"oxlint-disable-next-line\s+([^*]+)")?;
    let rule2 = Rule::new("oxlint-disable-line", "oxlint disable current line", r"oxlint-disable-line")?.with_capture(r"oxlint-disable-line\s+([^*]+)")?;
    let rule3 = Rule::new("oxlint-enable", "oxlint re-enable directive", r"oxlint-enable")?.with_capture(r"oxlint-enable\s+([^*]+)")?;
    let mut extensions: Vec<String> = Vec::new();
    extensions.push("js".to_owned());
    extensions.push("jsx".to_owned());
    extensions.push("ts".to_owned());
    extensions.push("tsx".to_owned());
    extensions.push("mjs".to_owned());
    extensions.push("cjs".to_owned());
    extensions.push("vue".to_owned());
    extensions.push("svelte".to_owned());
    let mut rules: Vec<Rule> = Vec::new();
    rules.push(rule0);
    rules.push(rule1);
    rules.push(rule2);
    rules.push(rule3);
    let s = Scout {
        name: "oxlint".to_owned(),
        linter: "oxlint".to_owned(),
        language: "javascript".to_owned(),
        extensions,
        rules,
    };
    proof {
        assert forall|k: int| 0 <= k < s.rules@.len() implies (#[trigger] s.rules@[k]).wf() by {}
    }
    Ok(s)
}

} // verus!
