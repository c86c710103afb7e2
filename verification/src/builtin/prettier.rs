//! The builtin scout for prettier.

use vstd::prelude::*;

use crate::error::LintScoutError;
use crate::pattern::pattern_compiles;
use crate::rule::Rule;
use crate::scout::Scout;

verus! {

/// Whether every pattern text of this scout is one the engine accepts.
pub open spec fn patterns_compile() -> bool {
    &&& pattern_compiles(r"prettier-ignore"@)
}

/// Whether `s` is this module's scout: its tags, the file types it owns
/// and its rules, every field fixed.
pub open spec fn is_scout(s: Scout) -> bool {
    &&& s.wf()
    &&& s.name@ == "prettier"@
    &&& s.linter@ == "prettier"@
    &&& s.language@ == "javascript"@
    &&& s.extensions@.len() == 13
    &&& s.extensions@[0]@ == "js"@
    &&& s.extensions@[1]@ == "jsx"@
    &&& s.extensions@[2]@ == "ts"@
    &&& s.extensions@[3]@ == "tsx"@
    &&& s.extensions@[4]@ == "css"@
    &&& s.extensions@[5]@ == "scss"@
    &&& s.extensions@[6]@ == "html"@
    &&& s.extensions@[7]@ == "md"@
    &&& s.extensions@[8]@ == "json"@
    &&& s.extensions@[9]@ == "yaml"@
    &&& s.extensions@[10]@ == "yml"@
    &&& s.extensions@[11]@ == "vue"@
    &&& s.extensions@[12]@ == "svelte"@
    &&& s.rules@.len() == 1
    &&& s.rules@[0].id@ == "prettier-ignore"@
    &&& s.rules@[0].description@ == "Prettier ignore directive"@
    &&& s.rules@[0].pattern_str@ == r"prettier-ignore"@
    &&& s.rules@[0].capture_pattern_str is None
}

/// The builtin scout for prettier: its suppression-directive patterns
/// and the file types it owns; succeeds exactly when every pattern
/// compiles.
pub fn scout() -> (r: Result<Scout, LintScoutError>)
    ensures
        r is Ok <==> patterns_compile(),
        r is Ok ==> is_scout(r->Ok_0),
        r is Err ==> r->Err_0 is InvalidPattern,
{
    let rule0 = Rule::new("prettier-ignore", "Prettier ignore directive", r"prettier-ignore")?;
    let mut extensions: Vec<String> = Vec::new();
    extensions.push("js".to_owned());
    extensions.push("jsx".to_owned());
    extensions.push("ts".to_owned());
    extensions.push("tsx".to_owned());
    extensions.push("css".to_owned());
    extensions.push("scss".to_owned());
    extensions.push("html".to_owned());
    extensions.push("md".to_owned());
    extensions.push("json".to_owned());
    extensions.push("yaml".to_owned());
    extensions.push("yml".to_owned());
    extensions.push("vue".to_owned());
    extensions.push("svelte".to_owned());
    let mut rules: Vec<Rule> = Vec::new();
    rules.push(rule0);
    let s = Scout {
        name: "prettier".to_owned(),
        linter: "prettier".to_owned(),
        language: "javascript".to_owned(),
        extensions,
        rules,
    };
    proof {
        assert forall|k: int| 0 <= k < s.rules@.len() implies (#[trigger] s.rules@[k]).wf() by {}
    }
    Ok(s)
}

} // verus!
