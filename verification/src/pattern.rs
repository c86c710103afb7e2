//! A compiled line pattern.  The regular-expression engine is an outside
//! collaborator: what a pattern accepts is named by uninterpreted spec
//! functions of the pattern text and the line, and the engine is called
//! through trusted wrappers whose contracts speak over those names.

use vstd::prelude::*;

verus! {

#[verifier::external_type_specification]
#[verifier::external_body]
pub struct ExRegex(regex::Regex);

/// Whether `src` is a pattern text that the engine accepts: the result of
/// `regex::Regex::new(src)` is `Ok` exactly on these texts.
pub uninterp spec fn pattern_compiles(src: Seq<char>) -> bool;

/// Whether the pattern compiled from `src` matches anywhere in `line`: the
/// result of `regex::Regex::is_match` on that line.  It depends on the
/// pattern text and the line alone.
pub uninterp spec fn pattern_matches(src: Seq<char>, line: Seq<char>) -> bool;

/// The text of capture group 1 of the first match of the pattern compiled
/// from `src` in `line`: `None` when the pattern does not match or group 1
/// takes no part in the match.  It depends on the pattern text and the line
/// alone.
pub uninterp spec fn pattern_capture(src: Seq<char>, line: Seq<char>) -> Option<Seq<char>>;

/// A compiled pattern together with the text it was compiled from.
pub struct Pattern {
    re: regex::Regex,
    source: Ghost<Seq<char>>,
}

/// Relies on `regex::Regex::new`: it returns `Ok` exactly when the text is
/// valid pattern syntax (within the engine's default size limit).
#[verifier::external_body]
fn regex_new(src: &str) -> (r: Option<regex::Regex>)
    ensures
        r is Some <==> pattern_compiles(src@),
{
    regex::Regex::new(src).ok()
}

impl Pattern {
    /// The text this pattern was compiled from.
    pub closed spec fn src(&self) -> Seq<char> {
        self.source@
    }

    /// Compiles `src`; `None` exactly on texts the engine rejects.
    pub(crate) fn compile(src: &str) -> (r: Option<Pattern>)
        ensures
            r is Some <==> pattern_compiles(src@),
            r is Some ==> r->0.src() == src@,
    {
        match regex_new(src) {
            Some(re) => Some(Pattern { re, source: Ghost(src@) }),
            None => None,
        }
    }

    /// Relies on `regex::Regex::is_match`: true exactly when the pattern
    /// matches somewhere in `line`; the result depends on the pattern text
    /// and the line alone.
    #[verifier::external_body]
    pub(crate) fn is_match(&self, line: &str) -> (r: bool)
        ensures
            r == pattern_matches(self.src(), line@),
    {
        self.re.is_match(line)
    }

    /// Relies on `regex::Regex::captures` and `regex::Captures::get`: the
    /// text of capture group 1 of the first match, `None` when the pattern
    /// does not match or group 1 takes no part; a function of the pattern
    /// text and the line alone.
    #[verifier::external_body]
    pub(crate) fn capture_one(&self, line: &str) -> (r: Option<String>)
        ensures
            r is Some <==> pattern_capture(self.src(), line@) is Some,
            r is Some ==> r->0@ == pattern_capture(self.src(), line@)->0,
    {
        self.re.captures(line).and_then(|c| c.get(1)).map(|m| m.as_str().to_string())
    }
}

} // verus!
