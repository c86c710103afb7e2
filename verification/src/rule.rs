//! One suppression-detection rule: a compiled line pattern plus an optional
//! secondary pattern that extracts the identifiers a directive suppresses.

use vstd::prelude::*;
use vstd::string::StringExecFns;

use crate::error::LintScoutError;
use crate::pattern::{pattern_capture, pattern_compiles, pattern_matches, Pattern};
use crate::text::{spec_tokens, split_tokens};

verus! {

/// A rule: an id unique within its scout, a description, a primary line
/// pattern, and an optional capture pattern with exactly one group of
/// interest.  The `_str` fields keep the texts the patterns were compiled
/// from.
pub struct Rule {
    pub id: String,
    pub description: String,
    pub pattern: Pattern,
    pub pattern_str: String,
    pub capture_pattern: Option<Pattern>,
    pub capture_pattern_str: Option<String>,
}

/// The identifier lists extracted by a capture pattern `cap` from `line`:
/// nothing when the capture misses, and an empty token list collapses to
/// nothing.
pub open spec fn spec_extracted(cap: Seq<char>, line: Seq<char>) -> Option<Seq<Seq<char>>> {
    match pattern_capture(cap, line) {
        Option::None => Option::None,
        Option::Some(text) => {
            if spec_tokens(text).len() == 0 {
                Option::None
            } else {
                Option::Some(spec_tokens(text))
            }
        },
    }
}

/// An extracted identifier list is never empty: an empty token list
/// collapses to nothing.
pub proof fn lemma_suppressed_nonempty(rule: Rule, line: Seq<char>)
    ensures
        rule.spec_suppressed(line) matches Option::Some(v) ==> v.len() > 0,
{
}

impl Rule {
    /// Each compiled pattern was compiled from the text stored beside it.
    pub open spec fn wf(&self) -> bool {
        &&& self.pattern.src() == self.pattern_str@
        &&& match self.capture_pattern {
            Option::Some(p) => {
                &&& self.capture_pattern_str is Some
                &&& p.src() == self.capture_pattern_str->0@
            },
            Option::None => self.capture_pattern_str is None,
        }
    }

    /// What `capture_suppressed_rules` returns on `line`.
    pub open spec fn spec_suppressed(&self, line: Seq<char>) -> Option<Seq<Seq<char>>> {
        match self.capture_pattern_str {
            Option::None => Option::None,
            Option::Some(cap) => spec_extracted(cap@, line),
        }
    }

    /// Builds a rule from a pattern text; fails, carrying the offending
    /// text, exactly when the engine rejects it.
    pub fn new(id: &str, description: &str, pattern_str: &str) -> (r: Result<
        Rule,
        LintScoutError,
    >)
        ensures
            r is Ok <==> pattern_compiles(pattern_str@),
            r is Ok ==> {
                &&& r->Ok_0.wf()
                &&& r->Ok_0.id@ == id@
                &&& r->Ok_0.description@ == description@
                &&& r->Ok_0.pattern_str@ == pattern_str@
                &&& r->Ok_0.capture_pattern_str is None
            },
            r is Err ==> (r->Err_0 matches LintScoutError::InvalidPattern { pattern: p }
                && p@ == pattern_str@),
    {
        match Pattern::compile(pattern_str) {
            Option::Some(pattern) => Ok(
                Rule {
                    id: id.to_owned(),
                    description: description.to_owned(),
                    pattern,
                    pattern_str: pattern_str.to_owned(),
                    capture_pattern: None,
                    capture_pattern_str: None,
                },
            ),
            Option::None => Err(LintScoutError::InvalidPattern { pattern: pattern_str.to_owned() }),
        }
    }

    /// Attaches an independently validated capture pattern; fails, carrying
    /// the offending text, exactly when the engine rejects it.
    pub fn with_capture(self, pattern: &str) -> (r: Result<Rule, LintScoutError>)
        requires
            self.wf(),
        ensures
            r is Ok <==> pattern_compiles(pattern@),
            r is Ok ==> {
                &&& r->Ok_0.wf()
                &&& r->Ok_0.id == self.id
                &&& r->Ok_0.description == self.description
                &&& r->Ok_0.pattern_str == self.pattern_str
                &&& r->Ok_0.capture_pattern_str matches Some(c) && c@ == pattern@
            },
            r is Err ==> (r->Err_0 matches LintScoutError::InvalidPattern { pattern: p }
                && p@ == pattern@),
    {
        match Pattern::compile(pattern) {
            Option::Some(compiled) => Ok(
                Rule {
                    capture_pattern: Some(compiled),
                    capture_pattern_str: Some(pattern.to_owned()),
                    ..self
                },
            ),
            Option::None => Err(LintScoutError::InvalidPattern { pattern: pattern.to_owned() }),
        }
    }

    /// Whether the primary pattern matches anywhere in the one line given.
    pub fn is_match(&self, line: &str) -> (r: bool)
        requires
            self.wf(),
        ensures
            r == pattern_matches(self.pattern_str@, line@),
    {
        self.pattern.is_match(line)
    }

    /// The identifiers the directive on `line` suppresses: nothing without a
    /// capture pattern or when its group misses; the captured text split at
    /// commas and spaces, trimmed, empties dropped; an empty list collapses
    /// to nothing.
    pub fn capture_suppressed_rules(&self, line: &str) -> (r: Option<Vec<String>>)
        requires
            self.wf(),
        ensures
            r is Some <==> self.spec_suppressed(line@) is Some,
            r is Some ==> r->0.deep_view() == self.spec_suppressed(line@)->0,
            r matches Some(v) ==> v@.len() > 0,
            self.capture_pattern_str is None ==> r is None,
    {
        let cap = match &self.capture_pattern {
            Option::Some(c) => c,
            Option::None => {
                return None;
            },
        };
        match cap.capture_one(line) {
            Option::Some(text) => {
                let tokens = split_tokens(text.as_str());
                if tokens.len() == 0 {
                    None
                } else {
                    Some(tokens)
                }
            },
            Option::None => None,
        }
    }
}

} // verus!
