//! One matched occurrence of a rule on one line of one file, and the total
//! order that the scanner sorts findings by.

use vstd::prelude::*;

use crate::text::{chars_lt, lemma_chars_lt_asymmetric, lemma_chars_lt_connected,
    lemma_chars_lt_transitive, str_eq, str_lt};

verus! {

/// One finding: where a suppression directive was seen, which rule of which
/// scout saw it, and the identifiers it suppresses, when any were extracted.
/// `suppressed_rules` is never an empty list.
#[derive(Debug, Clone, PartialEq, Eq)]
pub struct Finding {
    pub path: String,
    pub line_number: usize,
    pub line_text: String,
    pub scout_name: String,
    pub linter: String,
    pub rule_id: String,
    pub rule_description: String,
    pub suppressed_rules: Option<Vec<String>>,
}

/// The mathematical value of a finding: every text as a character sequence.
pub struct FindingSpec {
    pub path: Seq<char>,
    pub line_number: int,
    pub line_text: Seq<char>,
    pub scout_name: Seq<char>,
    pub linter: Seq<char>,
    pub rule_id: Seq<char>,
    pub rule_description: Seq<char>,
    pub suppressed_rules: Option<Seq<Seq<char>>>,
}

impl View for Finding {
    type V = FindingSpec;

    open spec fn view(&self) -> FindingSpec {
        FindingSpec {
            path: self.path@,
            line_number: self.line_number as int,
            line_text: self.line_text@,
            scout_name: self.scout_name@,
            linter: self.linter@,
            rule_id: self.rule_id@,
            rule_description: self.rule_description@,
            suppressed_rules: match self.suppressed_rules {
                Option::Some(v) => Option::Some(v.deep_view()),
                Option::None => Option::None,
            },
        }
    }
}

/// The sort key order: path, then line number, then scout name, then rule
/// id, each lexicographic or numeric, strictly.
pub open spec fn finding_key_lt(a: Finding, b: Finding) -> bool {
    ||| chars_lt(a.path@, b.path@)
    ||| (a.path@ == b.path@ && (a.line_number < b.line_number || (a.line_number == b.line_number
        && (chars_lt(a.scout_name@, b.scout_name@) || (a.scout_name@ == b.scout_name@
        && chars_lt(a.rule_id@, b.rule_id@))))))
}

/// Two findings with the same sort key.
pub open spec fn finding_key_eq(a: Finding, b: Finding) -> bool {
    a.path@ == b.path@ && a.line_number == b.line_number && a.scout_name@ == b.scout_name@
        && a.rule_id@ == b.rule_id@
}

/// The reflexive key order the output is sorted by.
pub open spec fn finding_key_le(a: Finding, b: Finding) -> bool {
    !finding_key_lt(b, a)
}

/// The strict key order holds in at most one direction, and of two findings
/// it orders in neither direction the keys are equal.
pub proof fn lemma_finding_key_trichotomy(a: Finding, b: Finding)
    ensures
        !(finding_key_lt(a, b) && finding_key_lt(b, a)),
        !finding_key_lt(a, b) && !finding_key_lt(b, a) ==> finding_key_eq(a, b),
{
    lemma_chars_lt_asymmetric(a.path@, b.path@);
    lemma_chars_lt_asymmetric(a.scout_name@, b.scout_name@);
    lemma_chars_lt_asymmetric(a.rule_id@, b.rule_id@);
    if !chars_lt(a.path@, b.path@) && !chars_lt(b.path@, a.path@) {
        lemma_chars_lt_connected(a.path@, b.path@);
    }
    if !chars_lt(a.scout_name@, b.scout_name@) && !chars_lt(b.scout_name@, a.scout_name@) {
        lemma_chars_lt_connected(a.scout_name@, b.scout_name@);
    }
    if !chars_lt(a.rule_id@, b.rule_id@) && !chars_lt(b.rule_id@, a.rule_id@) {
        lemma_chars_lt_connected(a.rule_id@, b.rule_id@);
    }
}

/// The strict key order is transitive.
pub proof fn lemma_finding_key_lt_transitive(a: Finding, b: Finding, c: Finding)
    requires
        finding_key_lt(a, b),
        finding_key_lt(b, c),
    ensures
        finding_key_lt(a, c),
{
    if chars_lt(a.path@, b.path@) && chars_lt(b.path@, c.path@) {
        lemma_chars_lt_transitive(a.path@, b.path@, c.path@);
    }
    if a.path@ == b.path@ && b.path@ == c.path@ {
        if chars_lt(a.scout_name@, b.scout_name@) && chars_lt(b.scout_name@, c.scout_name@) {
            lemma_chars_lt_transitive(a.scout_name@, b.scout_name@, c.scout_name@);
        }
        if a.scout_name@ == b.scout_name@ && b.scout_name@ == c.scout_name@ {
            if chars_lt(a.rule_id@, b.rule_id@) && chars_lt(b.rule_id@, c.rule_id@) {
                lemma_chars_lt_transitive(a.rule_id@, b.rule_id@, c.rule_id@);
            }
        }
    }
}

/// The key order holds in one direction or the other of any two findings,
/// and in both directions only of equal keys.
pub proof fn lemma_finding_key_le_total(a: Finding, b: Finding)
    ensures
        finding_key_le(a, b) || finding_key_le(b, a),
        finding_key_le(a, b) && finding_key_le(b, a) ==> finding_key_eq(a, b),
{
    lemma_finding_key_trichotomy(a, b);
    lemma_finding_key_trichotomy(b, a);
}

/// The key order is transitive.
pub proof fn lemma_finding_key_le_transitive(a: Finding, b: Finding, c: Finding)
    requires
        finding_key_le(a, b),
        finding_key_le(b, c),
    ensures
        finding_key_le(a, c),
{
    if finding_key_lt(c, a) {
        lemma_finding_key_trichotomy(a, b);
        if finding_key_lt(a, b) {
            lemma_finding_key_lt_transitive(c, a, b);
        } else {
            assert(finding_key_eq(a, b));
            assert(finding_key_lt(c, b));
        }
    }
}

/// Whether `a` strictly precedes `b` in the sort key order.
pub fn finding_lt(a: &Finding, b: &Finding) -> (r: bool)
    ensures
        r == finding_key_lt(*a, *b),
{
    if str_lt(a.path.as_str(), b.path.as_str()) {
        return true;
    }
    if !str_eq(a.path.as_str(), b.path.as_str()) {
        return false;
    }
    if a.line_number < b.line_number {
        return true;
    }
    if a.line_number > b.line_number {
        return false;
    }
    if str_lt(a.scout_name.as_str(), b.scout_name.as_str()) {
        return true;
    }
    if !str_eq(a.scout_name.as_str(), b.scout_name.as_str()) {
        return false;
    }
    str_lt(a.rule_id.as_str(), b.rule_id.as_str())
}

} // verus!
