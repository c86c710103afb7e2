//! The builtin scout for java.

use vstd::prelude::*;

use crate::error::LintScoutError;
use crate::pattern::pattern_compiles;
use crate::rule::Rule;
use crate::scout::Scout;

verus! {

/// Whether every pattern text of this scout is one the engine accepts.
pub open spec fn patterns_compile() -> bool {
    &&& pattern_compiles(r"@SuppressWarnings"@)
    &&& pattern_compiles(r#"@SuppressWarnings\(\{?"([^"]*)"#@)
    &&& pattern_compiles(r"CHECKSTYLE:\s*(OFF|ON)"@)
    &&& pattern_compiles(r"NOPMD"@)
    &&& pattern_compiles(r"@SuppressFBWarnings"@)
    &&& pattern_compiles(r#"@SuppressFBWarnings\("([^"]*)""#@)
}

/// Whether `s` is this module's scout: its tags, the file types it owns
/// and its rules, every field fixed.
pub open spec fn is_scout(s: Scout) -> bool {
    &&& s.wf()
    &&& s.name@ == "java"@
    &&& s.linter@ == "java"@
    &&& s.language@ == "java"@
    &&& s.extensions@.len() == 1
    &&& s.extensions@[0]@ == "java"@
    &&& s.rules@.len() == 4
    &&& s.rules@[0].id@ == "suppress-warnings"@
    &&& s.rules@[0].description@ == "Java SuppressWarnings annotation"@
    &&& s.rules@[0].pattern_str@ == r"@SuppressWarnings"@
    &&& (s.rules@[0].capture_pattern_str matches Some(c) && c@ == r#"@SuppressWarnings\(\{?"([^"]*)"#@)
    &&& s.rules@[1].id@ == "checkstyle-off"@
    &&& s.rules@[1].description@ == "Checkstyle toggle directive"@
    &&& s.rules@[1].pattern_str@ == r"CHECKSTYLE:\s*(OFF|ON)"@
    &&& s.rules@[1].capture_pattern_str is None
    &&& s.rules@[2].id@ == "nopmd"@
    &&& s.rules@[2].description@ == "PMD suppression directive"@
    &&& s.rules@[2].pattern_str@ == r"NOPMD"@
    &&& s.rules@[2].capture_pattern_str is None
    &&& s.rules@[3].id@ == "suppress-fb-warnings"@
    &&& s.rules@[3].description@ == "FindBugs/SpotBugs suppression"@
    &&& s.rules@[3].pattern_str@ == r"@SuppressFBWarnings"@
    &&& (s.rules@[3].capture_pattern_str matches Some(c) && c@ == r#"@SuppressFBWarnings\("([^"]*)""#@)
}

/// The builtin scout for java: its suppression-directive patterns
/// and the file types it owns; succeeds exactly when every pattern
/// compiles.
pub fn scout() -> (r: Result<Scout, LintScoutError>)
    ensures
        r is Ok <==> patterns_compile(),
        r is Ok ==> is_scout(r->Ok_0),
        r is Err ==> r->Err_0 is InvalidPattern,
{
    let rule0 = Rule::new("suppress-warnings", "Java SuppressWarnings annotation", r"@SuppressWarnings")?.with_capture(r#"@SuppressWarnings\(\{?"([^"]*)"#)?;
    let rule1 = Rule::new("checkstyle-off", "Checkstyle toggle directive", r"CHECKSTYLE:\s*(OFF|ON)")?;
    let rule2 = Rule::new("nopmd", "PMD suppression directive", r"NOPMD")?;
    let rule3 = Rule::new("suppress-fb-warnings", "FindBugs/SpotBugs suppression", r"@SuppressFBWarnings")?.with_capture(r#"@SuppressFBWarnings\("([^"]*)""#)?;
    let mut extensions: Vec<String> = Vec::new();
    extensions.push("java".to_owned());
    let mut rules: Vec<Rule> = Vec::new();
    rules.push(rule0);
    rules.push(rule1);
    rules.push(rule2);
    rules.push(rule3);
    let s = Scout {
        name: "java".to_owned(),
        linter: "java".to_owned(),
        language: "java".to_owned(),
        extensions,
        rules,
    };
    proof {
        assert forall|k: int| 0 <= k < s.rules@.len() implies (#[trigger] s.rules@[k]).wf() by {}
    }
    Ok(s)
}

} // verus!
