//! The builtin scout for phpstan.

use vstd::prelude::*;

use crate::error::LintScoutError;
use crate::pattern::pattern_compiles;
use crate::rule::Rule;
use crate::scout::Scout;

verus! {

/// Whether every pattern text of this scout is one the engine accepts.
pub open spec fn patterns_compile() -> bool {
    &&& pattern_compiles(r"@phpstan-ignore-next-line"@)
    &&& pattern_compiles(r"@phpstan-ignore-line"@)
    &&& pattern_compiles(r"@phpstan-ignore\s"@)
    &&& pattern_compiles(r"@phpstan-ignore\s+(.+)"@)
}

/// Whether `s` is this module's scout: its tags, the file types it owns
/// and its rules, every field fixed.
pub open spec fn is_scout(s: Scout) -> bool {
    &&& s.wf()
    &&& s.name@ == "phpstan"@
    &&& s.linter@ == "phpstan"@
    &&& s.language@ == "php"@
    &&& s.extensions@.len() == 1
    &&& s.extensions@[0]@ == "php"@
    &&& s.rules@.len() == 3
    &&& s.rules@[0].id@ == "phpstan-ignore-next-line"@
    &&& s.rules@[0].description@ == "PHPStan ignore next line directive"@
    &&& s.rules@[0].pattern_str@ == r"@phpstan-ignore-next-line"@
    &&& s.rules@[0].capture_pattern_str is None
    &&& s.rules@[1].id@ == "phpstan-ignore-line"@
    &&& s.rules@[1].description@ == "PHPStan ignore current line directive"@
    &&& s.rules@[1].pattern_str@ == r"@phpstan-ignore-line"@
    &&& s.rules@[1].capture_pattern_str is None
    &&& s.rules@[2].id@ == "phpstan-ignore"@
    &&& s.rules@[2].description@ == "PHPStan ignore directive"@
    &&& s.rules@[2].pattern_str@ == r"@phpstan-ignore\s"@
    &&& (s.rules@[2].capture_pattern_str matches Some(c) && c@ == r"@phpstan-ignore\s+(.+)"@)
}

/// The builtin scout for phpstan: its suppression-directive patterns
/// and the file types it owns; succeeds exactly when every pattern
/// compiles.
pub fn scout() -> (r: Result<Scout, LintScoutError>)
    ensures
        r is Ok <==> patterns_compile(),
        r is Ok ==> is_scout(r->Ok_0),
        r is Err ==> r->Err_0 is InvalidPattern,
{
    let rule0 = Rule::new("phpstan-ignore-next-line", "PHPStan ignore next line directive", r"@phpstan-ignore-next-line")?;
    let rule1 = Rule::new("phpstan-ignore-line", "PHPStan ignore current line directive", r"@phpstan-ignore-line")?;
    let rule2 = Rule::new("phpstan-ignore", "PHPStan ignore directive", r"@phpstan-ignore\s")?.with_capture(r"@phpstan-ignore\s+(.+)")?;
    let mut extensions: Vec<String> = Vec::new();
    extensions.push("php".to_owned());
    let mut rules: Vec<Rule> = Vec::new();
    rules.push(rule0);
    rules.push(rule1);
    rules.push(rule2);
    let s = Scout {
        name: "phpstan".to_owned(),
        linter: "phpstan".to_owned(),
        language: "php".to_owned(),
        extensions,
        rules,
    };
    proof {
        assert forall|k: int| 0 <= k < s.rules@.len() implies (#[trigger] s.rules@[k]).wf() by {}
    }
    Ok(s)
}

} // verus!
