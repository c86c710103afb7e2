//! The builtin scout for rubocop.

use vstd::prelude::*;

use crate::error::LintScoutError;
use crate::pattern::pattern_compiles;
use crate::rule::Rule;
use crate::scout::Scout;

verus! {

/// Whether every pattern text of this scout is one the engine accepts.
pub open spec fn patterns_compile() -> bool {
    &&& pattern_compiles(r"rubocop:(disable|enable|todo)"@)
    &&& pattern_compiles(r"rubocop:(?:disable|enable|todo)\s+(.+)"@)
}

/// Whether `s` is this module's scout: its tags, the file types it owns
/// and its rules, every field fixed.
pub open spec fn is_scout(s: Scout) -> bool {
    &&& s.wf()
    &&& s.name@ == "rubocop"@
    &&& s.linter@ == "rubocop"@
    &&& s.language@ == "ruby"@
    &&& s.extensions@.len() == 3
    &&& s.extensions@[0]@ == "rb"@
    &&& s.extensions@[1]@ == "rake"@
    &&& s.extensions@[2]@ == "gemspec"@
    &&& s.rules@.len() == 1
    &&& s.rules@[0].id@ == "rubocop-directive"@
    &&& s.rules@[0].description@ == "RuboCop disable/enable/todo directive"@
    &&& s.rules@[0].pattern_str@ == r"rubocop:(disable|enable|todo)"@
    &&& (s.rules@[0].capture_pattern_str matches Some(c) && c@ == r"rubocop:(?:disable|enable|todo)\s+(.+)"@)
}

/// The builtin scout for rubocop: its suppression-directive patterns
/// and the file types it owns; succeeds exactly when every pattern
/// compiles.
pub fn scout() -> (r: Result<Scout, LintScoutError>)
    ensures
        r is Ok <==> patterns_compile(),
        r is Ok ==> is_scout(r->Ok_0),
        r is Err ==> r->Err_0 is InvalidPattern,
{
    let rule0 = Rule::new("rubocop-directive", "RuboCop disable/enable/todo directive", r"rubocop:(disable|enable|todo)")?.with_capture(r"rubocop:(?:disable|enable|todo)\s+(.+)")?;
    let mut extensions: Vec<String> = Vec::new();
    extensions.push("rb".to_owned());
    extensions.push("rake".to_owned());
    extensions.push("gemspec".to_owned());
    let mut rules: Vec<Rule> = Vec::new();
    rules.push(rule0);
    let s = Scout {
        name: "rubocop".to_owned(),
        linter: "rubocop".to_owned(),
        language: "ruby".to_owned(),
        extensions,
        rules,
    };
    proof {
        assert forall|k: int| 0 <= k < s.rules@.len() implies (#[trigger] s.rules@[k]).wf() by {}
    }
    Ok(s)
}

} // verus!
