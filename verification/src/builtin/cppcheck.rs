//! The builtin scout for cppcheck.

use vstd::prelude::*;

use crate::error::LintScoutError;
use crate::pattern::pattern_compiles;
use crate::rule::Rule;
use crate::scout::Scout;

verus! {

/// Whether every pattern text of this scout is one the engine accepts.
pub open spec fn patterns_compile() -> bool {
    &&& pattern_compiles(r"cppcheck-suppress"@)
}

/// Whether `s` is this module's scout: its tags, the file types it owns
/// and its rules, every field fixed.
pub open spec fn is_scout(s: Scout) -> bool {
    &&& s.wf()
    &&& s.name@ == "cppcheck"@
    &&& s.linter@ == "cppcheck"@
    &&& s.language@ == "cpp"@
    &&& s.extensions@.len() == 7
    &&& s.extensions@[0]@ == "c"@
    &&& s.extensions@[1]@ == "cc"@
    &&& s.extensions@[2]@ == "cpp"@
    &&& s.extensions@[3]@ == "cxx"@
    &&& s.extensions@[4]@ == "h"@
    &&& s.extensions@[5]@ == "hpp"@
    &&& s.extensions@[6]@ == "hxx"@
    &&& s.rules@.len() == 1
    &&& s.rules@[0].id@ == "cppcheck-suppress"@
    &&& s.rules@[0].description@ == "cppcheck suppress directive"@
    &&& s.rules@[0].pattern_str@ == r"cppcheck-suppress"@
    &&& s.rules@[0].capture_pattern_str is None
}

/// The builtin scout for cppcheck: its suppression-directive patterns
/// and the file types it owns; succeeds exactly when every pattern
/// compiles.
pub fn scout() -> (r: Result<Scout, LintScoutError>)
    ensures
        r is Ok <==> patterns_compile(),
        r is Ok ==> is_scout(r->Ok_0),
        r is Err ==> r->Err_0 is InvalidPattern,
{
    let rule0 = Rule::new("cppcheck-suppress", "cppcheck suppress directive", r"cppcheck-suppress")?;
    let mut extensions: Vec<String> = Vec::new();
    extensions.push("c".to_owned());
    extensions.push("cc".to_owned());
    extensions.push("cpp".to_owned());
    extensions.push("cxx".to_owned());
    extensions.push("h".to_owned());
    extensions.push("hpp".to_owned());
    extensions.push("hxx".to_owned());
    let mut rules: Vec<Rule> = Vec::new();
    rules.push(rule0);
    let s = Scout {
        name: "cppcheck".to_owned(),
        linter: "cppcheck".to_owned(),
        language: "cpp".to_owned(),
        extensions,
        rules,
    };
    proof {
        assert forall|k: int| 0 <= k < s.rules@.len() implies (#[trigger] s.rules@[k]).wf() by {}
    }
    Ok(s)
}

} // verus!
