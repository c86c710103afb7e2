//! The builtin scout for eslint.

use vstd::prelude::*;

use crate::error::LintScoutError;
use crate::pattern::pattern_compiles;
use crate::rule::Rule;
use crate::scout::Scout;

verus! {

/// Whether every pattern text of this scout is one the engine accepts.
pub open spec fn patterns_compile() -> bool {
    &&& pattern_compiles(r"eslint-disable(?:\s|$)"@)
    &&& pattern_compiles(r"eslint-disable-next-line"@)
    &&& pattern_compiles(r"eslint-disable-line"@)
    &&& pattern_compiles(r"eslint-enable"@)
}

/// Whether `s` is this module's scout: its tags, the file types it owns
/// and its rules, every field fixed.
pub open spec fn is_scout(s: Scout) -> bool {
    &&& s.wf()
    &&& s.name@ == "eslint"@
    &&& s.linter@ == "eslint"@
    &&& s.language@ == "javascript"@
    &&& s.extensions@.len() == 8
    &&& s.extensions@[0]@ == "js"@
    &&& s.extensions@[1]@ == "jsx"@
    &&& s.extensions@[2]@ == "ts"@
    &&& s.extensions@[3]@ == "tsx"@
    &&& s.extensions@[4]@ == "mjs"@
    &&& s.extensions@[5]@ == "cjs"@
    &&& s.extensions@[6]@ == "vue"@
    &&& s.extensions@[7]@ == "svelte"@
    &&& s.rules@.len() == 4
    &&& s.rules@[0].id@ == "eslint-disable"@
    &&& s.rules@[0].description@ == "ESLint disable block directive"@
    &&& s.rules@[0].pattern_str@ == r"eslint-disable(?:\s|$)"@
    &&& s.rules@[0].capture_pattern_str is None
    &&& s.rules@[1].id@ == "eslint-disable-next-line"@
    &&& s.rules@[1].description@ == "ESLint disable next line"@
    &&& s.rules@[1].pattern_str@ == r"eslint-disable-next-line"@
    &&& s.rules@[1].capture_pattern_str is None
    &&& s.rules@[2].id@ == "eslint-disable-line"@
    &&& s.rules@[2].description@ == "ESLint disable current line"@
    &&& s.rules@[2].pattern_str@ == r"eslint-disable-line"@
    &&& s.rules@[2].capture_pattern_str is None
    &&& s.rules@[3].id@ == "eslint-enable"@
    &&& s.rules@[3].description@ == "ESLint re-enable directive"@
    &&& s.rules@[3].pattern_str@ == r"eslint-enable"@
    &&& s.rules@[3].capture_pattern_str is None
}

/// The builtin scout for eslint: its suppression-directive patterns
/// and the file types it owns; succeeds exactly when every pattern
/// compiles.
pub fn scout() -> (r: Result<Scout, LintScoutError>)
    ensures
        r is Ok <==> patterns_compile(),
        r is Ok ==> is_scout(r->Ok_0),
        r is Err ==> r->Err_0 is InvalidPattern,
{
    let rule0 = Rule::new("eslint-disable", "ESLint disable block directive", r"eslint-disable(?:\s|$)")?;
    let rule1 = Rule::new("eslint-disable-next-line", "ESLint disable next line", r"eslint-disable-next-line")?;
    let rule2 = Rule::new("eslint-disable-line", "ESLint disable current line", r"eslint-disable-line")?;
    let rule3 = Rule::new("eslint-enable", "ESLint re-enable directive", r"eslint-enable")?;
    let mut extensions: Vec<String> = Vec::new();
    extensions.push("js".to_owned());
    extensions.push("jsx".to_owned());
    extensions.push("ts".to_owned());
    extensions.push("tsx".to_owned());
    extensions.push("mjs".to_owned());
    extensions.push("cjs".to_owned());
    extensions.push("vue".to_owned());
    extensions.push("svelte".to_owned());
    let mut rules: Vec<Rule> = Vec::new();
    rules.push(rule0);
    rules.push(rule1);
    rules.push(rule2);
    rules.push(rule3);
    let s = Scout {
        name: "eslint".to_owned(),
        linter: "eslint".to_owned(),
        language: "javascript".to_owned(),
        extensions,
        rules,
    };
    proof {
        assert forall|k: int| 0 <= k < s.rules@.len() implies (#[trigger] s.rules@[k]).wf() by {}
    }
    Ok(s)
}

} // verus!
