//! The builtin scout for shellcheck.

use vstd::prelude::*;

use crate::error::LintScoutError;
use crate::pattern::pattern_compiles;
use crate::rule::Rule;
use crate::scout::Scout;

verus! {

/// Whether every pattern text of this scout is one the engine accepts.
pub open spec fn patterns_compile() -> bool {
    &&& pattern_compiles(r"shellcheck\s+disable="@)
    &&& pattern_compiles(r"shellcheck\s+disable=(.+)"@)
}

/// Whether `s` is this module's scout: its tags, the file types it owns
/// and its rules, every field fixed.
pub open spec fn is_scout(s: Scout) -> bool {
    &&& s.wf()
    &&& s.name@ == "shellcheck"@
    &&& s.linter@ == "shellcheck"@
    &&& s.language@ == "shell"@
    &&& s.extensions@.len() == 4
    &&& s.extensions@[0]@ == "sh"@
    &&& s.extensions@[1]@ == "bash"@
    &&& s.extensions@[2]@ == "zsh"@
    &&& s.extensions@[3]@ == "ksh"@
    &&& s.rules@.len() == 1
    &&& s.rules@[0].id@ == "shellcheck-disable"@
    &&& s.rules@[0].description@ == "ShellCheck disable directive"@
    &&& s.rules@[0].pattern_str@ == r"shellcheck\s+disable="@
    &&& (s.rules@[0].capture_pattern_str matches Some(c) && c@ == r"shellcheck\s+disable=(.+)"@)
}

/// The builtin scout for shellcheck: its suppression-directive patterns
/// and the file types it owns; succeeds exactly when every pattern
/// compiles.
pub fn scout() -> (r: Result<Scout, LintScoutError>)
    ensures
        r is Ok <==> patterns_compile(),
        r is Ok ==> is_scout(r->Ok_0),
        r is Err ==> r->Err_0 is InvalidPattern,
{
    let rule0 = Rule::new("shellcheck-disable", "ShellCheck disable directive", r"shellcheck\s+disable=")?.with_capture(r"shellcheck\s+disable=(.+)")?;
    let mut extensions: Vec<String> = Vec::new();
    extensions.push("sh".to_owned());
    extensions.push("bash".to_owned());
    extensions.push("zsh".to_owned());
    extensions.push("ksh".to_owned());
    let mut rules: Vec<Rule> = Vec::new();
    rules.push(rule0);
    let s = Scout {
        name: "shellcheck".to_owned(),
        linter: "shellcheck".to_owned(),
        language: "shell".to_owned(),
        extensions,
        rules,
    };
    proof {
        assert forall|k: int| 0 <= k < s.rules@.len() implies (#[trigger] s.rules@[k]).wf() by {}
    }
    Ok(s)
}

} // verus!
