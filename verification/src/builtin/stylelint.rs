//! The builtin scout for stylelint.

use vstd::prelude::*;

use crate::error::LintScoutError;
use crate::pattern::pattern_compiles;
use crate::rule::Rule;
use crate::scout::Scout;

verus! {

/// Whether every pattern text of this scout is one the engine accepts.
pub open spec fn patterns_compile() -> bool {
    &&& pattern_compiles(r"stylelint-disable"@)
    &&& pattern_compiles(r"stylelint-enable"@)
}

/// Whether `s` is this module's scout: its tags, the file types it owns
/// and its rules, every field fixed.
pub open spec fn is_scout(s: Scout) -> bool {
    &&& s.wf()
    &&& s.name@ == "stylelint"@
    &&& s.linter@ == "stylelint"@
    &&& s.language@ == "css"@
    &&& s.extensions@.len() == 6
    &&& s.extensions@[0]@ == "css"@
    &&& s.extensions@[1]@ == "scss"@
    &&& s.extensions@[2]@ == "sass"@
    &&& s.extensions@[3]@ == "less"@
    &&& s.extensions@[4]@ == "vue"@
    &&& s.extensions@[5]@ == "svelte"@
    &&& s.rules@.len() == 2
    &&& s.rules@[0].id@ == "stylelint-disable"@
    &&& s.rules@[0].description@ == "Stylelint disable directive"@
    &&& s.rules@[0].pattern_str@ == r"stylelint-disable"@
    &&& s.rules@[0].capture_pattern_str is None
    &&& s.rules@[1].id@ == "stylelint-enable"@
    &&& s.rules@[1].description@ == "Stylelint re-enable directive"@
    &&& s.rules@[1].pattern_str@ == r"stylelint-enable"@
    &&& s.rules@[1].capture_pattern_str is None
}

/// The builtin scout for stylelint: its suppression-directive patterns
/// and the file types it owns; succeeds exactly when every pattern
/// compiles.
pub fn scout() -> (r: Result<Scout, LintScoutError>)
    ensures
        r is Ok <==> patterns_compile(),
        r is Ok ==> is_scout(r->Ok_0),
        r is Err ==> r->Err_0 is InvalidPattern,
{
    let rule0 = Rule::new("stylelint-disable", "Stylelint disable directive", r"stylelint-disable")?;
    let rule1 = Rule::new("stylelint-enable", "Stylelint re-enable directive", r"stylelint-enable")?;
    let mut extensions: Vec<String> = Vec::new();
    extensions.push("css".to_owned());
    extensions.push("scss".to_owned());
    extensions.push("sass".to_owned());
    extensions.push("less".to_owned());
    extensions.push("vue".to_owned());
    extensions.push("svelte".to_owned());
    let mut rules: Vec<Rule> = Vec::new();
    rules.push(rule0);
    rules.push(rule1);
    let s = Scout {
        name: "stylelint".to_owned(),
        linter: "stylelint".to_owned(),
        language: "css".to_owned(),
        extensions,
        rules,
    };
    proof {
        assert forall|k: int| 0 <= k < s.rules@.len() implies (#[trigger] s.rules@[k]).wf() by {}
    }
    Ok(s)
}

} // verus!
