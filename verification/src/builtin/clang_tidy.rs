//! The builtin scout for clang-tidy.

use vstd::prelude::*;

use crate::error::LintScoutError;
use crate::pattern::pattern_compiles;
use crate::rule::Rule;
use crate::scout::Scout;

verus! {

/// Whether every pattern text of this scout is one the engine accepts.
pub open spec fn patterns_compile() -> bool {
    &&& pattern_compiles(r"NOLINT(\(|$|\s)"@)
    &&& pattern_compiles(r"NOLINT\(([^)]+)\)"@)
    &&& pattern_compiles(r"NOLINTNEXTLINE"@)
    &&& pattern_compiles(r"NOLINTNEXTLINE\(([^)]+)\)"@)
    &&& pattern_compiles(r"NOLINTBEGIN"@)
    &&& pattern_compiles(r"NOLINTBEGIN\(([^)]+)\)"@)
    &&& pattern_compiles(r"NOLINTEND"@)
}

/// Whether `s` is this module's scout: its tags, the file types it owns
/// and its rules, every field fixed.
pub open spec fn is_scout(s: Scout) -> bool {
    &&& s.wf()
    &&& s.name@ == "clang-tidy"@
    &&& s.linter@ == "clang-tidy"@
    &&& s.language@ == "cpp"@
    &&& s.extensions@.len() == 7
    &&& s.extensions@[0]@ == "c"@
    &&& s.extensions@[1]@ == "cc"@
    &&& s.extensions@[2]@ == "cpp"@
    &&& s.extensions@[3]@ == "cxx"@
    &&& s.extensions@[4]@ == "h"@
    &&& s.extensions@[5]@ == "hpp"@
    &&& s.extensions@[6]@ == "hxx"@
    &&& s.rules@.len() == 4
    &&& s.rules@[0].id@ == "nolint"@
    &&& s.rules@[0].description@ == "clang-tidy NOLINT directive"@
    &&& s.rules@[0].pattern_str@ == r"NOLINT(\(|$|\s)"@
    &&& (s.rules@[0].capture_pattern_str matches Some(c) && c@ == r"NOLINT\(([^)]+)\)"@)
    &&& s.rules@[1].id@ == "nolintnextline"@
    &&& s.rules@[1].description@ == "clang-tidy NOLINTNEXTLINE directive"@
    &&& s.rules@[1].pattern_str@ == r"NOLINTNEXTLINE"@
    &&& (s.rules@[1].capture_pattern_str matches Some(c) && c@ == r"NOLINTNEXTLINE\(([^)]+)\)"@)
    &&& s.rules@[2].id@ == "nolintbegin"@
    &&& s.rules@[2].description@ == "clang-tidy NOLINTBEGIN directive"@
    &&& s.rules@[2].pattern_str@ == r"NOLINTBEGIN"@
    &&& (s.rules@[2].capture_pattern_str matches Some(c) && c@ == r"NOLINTBEGIN\(([^)]+)\)"@)
    &&& s.rules@[3].id@ == "nolintend"@
    &&& s.rules@[3].description@ == "clang-tidy NOLINTEND directive"@
    &&& s.rules@[3].pattern_str@ == r"NOLINTEND"@
    &&& s.rules@[3].capture_pattern_str is None
}

/// The builtin scout for clang-tidy: its suppression-directive patterns
/// and the file types it owns; succeeds exactly when every pattern
/// compiles.
pub fn scout() -> (r: Result<Scout, LintScoutError>)
    ensures
        r is Ok <==> patterns_compile(),
        r is Ok ==> is_scout(r->Ok_0),
        r is Err ==> r->Err_0 is InvalidPattern,
{
    let rule0 = Rule::new("nolint", "clang-tidy NOLINT directive", r"NOLINT(\(|$|\s)")?.with_capture(r"NOLINT\(([^)]+)\)")?;
    let rule1 = Rule::new("nolintnextline", "clang-tidy NOLINTNEXTLINE directive", r"NOLINTNEXTLINE")?.with_capture(r"NOLINTNEXTLINE\(([^)]+)\)")?;
    let rule2 = Rule::new("nolintbegin", "clang-tidy NOLINTBEGIN directive", r"NOLINTBEGIN")?.with_capture(r"NOLINTBEGIN\(([^)]+)\)")?;
    let rule3 = Rule::new("nolintend", "clang-tidy NOLINTEND directive", r"NOLINTEND")?;
    let mut extensions: Vec<String> = Vec::new();
    extensions.push("c".to_owned());
    extensions.push("cc".to_owned());
    extensions.push("cpp".to_owned());
    extensions.push("cxx".to_owned());
    extensions.push("h".to_owned());
    extensions.push("hpp".to_owned());
    extensions.push("hxx".to_owned());
    let mut rules: Vec<Rule> = Vec::new();
    rules.push(rule0);
    rules.push(rule1);
    rules.push(rule2);
    rules.push(rule3);
    let s = Scout {
        name: "clang-tidy".to_owned(),
        linter: "clang-tidy".to_owned(),
        language: "cpp".to_owned(),
        extensions,
        rules,
    };
    proof {
        assert forall|k: int| 0 <= k < s.rules@.len() implies (#[trigger] s.rules@[k]).wf() by {}
    }
    Ok(s)
}

} // verus!
