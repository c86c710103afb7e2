//! Translation of a scan result into a structured report: a flat rule
//! catalog keyed by `{linter}/{rule_id}` with zero-based indices assigned on
//! first sight, and one result entry per finding that references its rule
//! strictly by that pre-assigned index.

use vstd::prelude::*;
use vstd::string::{StrSliceExecFns, StringExecFns};

use crate::finding::{Finding, FindingSpec};
use crate::scanner::ScanResult;
use crate::text::{clone_strings, dec_digits, spec_trim, str_eq, trim_str, usize_to_string};

verus! {

/// One catalog entry: a composite rule key and the description of the first
/// finding that carried it.
pub struct ReportRule {
    pub id: String,
    pub description: String,
}

/// One result entry: its composite key and pre-assigned catalog index, a
/// message, one physical location (file path and 1-based start line only),
/// and the property bag of linter, scout and extracted identifiers.
pub struct ReportResult {
    pub rule_id: String,
    pub rule_index: usize,
    pub message: String,
    pub path: String,
    pub start_line: usize,
    pub linter: String,
    pub scout_name: String,
    pub suppressed_rules: Option<Vec<String>>,
}

/// The catalog and the results of one scan.
pub struct Report {
    pub rules: Vec<ReportRule>,
    pub results: Vec<ReportResult>,
}

/// The composite catalog key of a finding: `{linter}/{rule_id}`.
pub open spec fn composite_key(f: FindingSpec) -> Seq<char> {
    f.linter + "/"@ + f.rule_id
}

/// The message of one result: the rule description, the trimmed line text,
/// and the literal line number.
pub open spec fn report_message(f: FindingSpec) -> Seq<char> {
    f.rule_description + ": "@ + spec_trim(f.line_text) + " (line: "@ + dec_digits(f.line_number)
        + ")"@
}

/// The keys of a catalog under construction.
pub open spec fn keys_of(acc: Seq<(Seq<char>, Seq<char>)>) -> Seq<Seq<char>> {
    acc.map_values(|p: (Seq<char>, Seq<char>)| p.0)
}

/// The catalog that the findings from position `i` on grow out of `acc`:
/// each distinct key once, in encounter order, with the description first
/// seen beside it.
pub open spec fn catalog_from(
    fs: Seq<FindingSpec>,
    i: int,
    acc: Seq<(Seq<char>, Seq<char>)>,
) -> Seq<(Seq<char>, Seq<char>)>
    decreases fs.len() - i,
{
    if i < 0 || i >= fs.len() {
        acc
    } else {
        let k = composite_key(fs[i]);
        if keys_of(acc).contains(k) {
            catalog_from(fs, i + 1, acc)
        } else {
            catalog_from(fs, i + 1, acc.push((k, fs[i].rule_description)))
        }
    }
}

/// The rule catalog of a finding sequence: key and description pairs, each
/// distinct key exactly once, in encounter order.
pub open spec fn report_catalog(fs: Seq<FindingSpec>) -> Seq<(Seq<char>, Seq<char>)> {
    catalog_from(fs, 0, Seq::empty())
}

fn composite_key_string(f: &Finding) -> (r: String)
    ensures
        r@ == composite_key(f@),
{
    let mut key = f.linter.clone();
    key.append("/");
    key.append(f.rule_id.as_str());
    key
}

fn message_string(f: &Finding) -> (r: String)
    ensures
        r@ == report_message(f@),
{
    let mut msg = f.rule_description.clone();
    msg.append(": ");
    msg.append(trim_str(f.line_text.as_str()));
    msg.append(" (line: ");
    let num = usize_to_string(f.line_number);
    msg.append(num.as_str());
    msg.append(")");
    msg
}

/// Translates a scan result into the structured report: the catalog holds
/// each distinct composite key exactly once, indexed on first sight in
/// encounter order, and every result references the catalog entry whose id
/// equals its own composite key.
pub fn build_report(result: &ScanResult) -> (r: Report)
    ensures
        r.rules@.map_values(|ru: ReportRule| (ru.id@, ru.description@)) == report_catalog(
            result.findings@.map_values(|f: Finding| f@),
        ),
        forall|i: int, j: int|
            0 <= i < j < r.rules@.len() ==> (#[trigger] r.rules@[i]).id@ != (
            #[trigger] r.rules@[j]).id@,
        r.results@.len() == result.findings@.len(),
        forall|k: int|
            0 <= k < r.results@.len() ==> {
                let f = (#[trigger] result.findings@[k])@;
                let e = r.results@[k];
                &&& e.rule_id@ == composite_key(f)
                &&& (e.rule_index as int) < r.rules@.len()
                &&& r.rules@[e.rule_index as int].id@ == composite_key(f)
                &&& e.message@ == report_message(f)
                &&& e.path@ == f.path
                &&& e.start_line as int == f.line_number
                &&& e.linter@ == f.linter
                &&& e.scout_name@ == f.scout_name
                &&& (match e.suppressed_rules {
                    Option::Some(v) => f.suppressed_rules matches Option::Some(sv) && v.deep_view()
                        == sv,
                    Option::None => f.suppressed_rules is None,
                })
            },
{
    let ghost fv = result.findings@.map_values(|f: Finding| f@);
    let mut rules: Vec<ReportRule> = Vec::new();
    let mut results_out: Vec<ReportResult> = Vec::new();
    let n = result.findings.len();
    let mut k: usize = 0;
    proof {
        assert(rules@.map_values(|ru: ReportRule| (ru.id@, ru.description@)) =~= Seq::<
            (Seq<char>, Seq<char>),
        >::empty());
    }
    while k < n
        invariant
            k <= n,
            n == result.findings@.len(),
            fv == result.findings@.map_values(|f: Finding| f@),
            fv.len() == n,
            results_out@.len() == k,
            catalog_from(fv, k as int, rules@.map_values(|ru: ReportRule| (ru.id@, ru.description@)))
                == report_catalog(fv),
            forall|i: int, j: int|
                0 <= i < j < rules@.len() ==> (#[trigger] rules@[i]).id@ != (
                #[trigger] rules@[j]).id@,
            forall|m: int|
                0 <= m < k ==> {
                    let f = (#[trigger] result.findings@[m])@;
                    let e = results_out@[m];
                    &&& e.rule_id@ == composite_key(f)
                    &&& (e.rule_index as int) < rules@.len()
                    &&& rules@[e.rule_index as int].id@ == composite_key(f)
                    &&& e.message@ == report_message(f)
                    &&& e.path@ == f.path
                    &&& e.start_line as int == f.line_number
                    &&& e.linter@ == f.linter
                    &&& e.scout_name@ == f.scout_name
                    &&& (match e.suppressed_rules {
                        Option::Some(v) => f.suppressed_rules matches Option::Some(sv)
                            && v.deep_view() == sv,
                        Option::None => f.suppressed_rules is None,
                    })
                },
        decreases n - k,
    {
        let ghost pairs_pre = rules@.map_values(|ru: ReportRule| (ru.id@, ru.description@));
        let f = &result.findings[k];
        proof {
            assert(fv[k as int] == f@);
        }
        let key = composite_key_string(f);
        let n_rules = rules.len();
        let mut j: usize = 0;
        let mut found = n_rules;
        while j < n_rules && found == n_rules
            invariant
                j <= n_rules,
                n_rules == rules@.len(),
                key@ == composite_key(fv[k as int]),
                k < fv.len(),
                found == n_rules || (found < n_rules && rules@[found as int].id@ == key@),
                found == n_rules ==> forall|jj: int|
                    0 <= jj < j ==> (#[trigger] rules@[jj]).id@ != key@,
            decreases n_rules - j,
        {
            if str_eq(rules[j].id.as_str(), key.as_str()) {
                found = j;
            }
            j += 1;
        }
        let rule_index: usize;
        if found < n_rules {
            rule_index = found;
            proof {
                assert(keys_of(pairs_pre)[found as int] == rules@[found as int].id@);
                assert(keys_of(pairs_pre).contains(composite_key(fv[k as int])));
            }
        } else {
            rule_index = n_rules;
            proof {
                assert forall|jj: int|
                    0 <= jj < keys_of(pairs_pre).len() implies #[trigger] keys_of(pairs_pre)[jj]
                    != composite_key(fv[k as int]) by {
                    assert(keys_of(pairs_pre)[jj] == rules@[jj].id@);
                }
                assert(!keys_of(pairs_pre).contains(composite_key(fv[k as int])));
            }
            let ghost rules_pre = rules@;
            rules.push(
                ReportRule { id: key.clone(), description: f.rule_description.clone() },
            );
            proof {
                assert(rules@.map_values(|ru: ReportRule| (ru.id@, ru.description@))
                    =~= pairs_pre.push(
                    (composite_key(fv[k as int]), fv[k as int].rule_description),
                ));
                assert forall|i: int, jx: int|
                    0 <= i < jx < rules@.len() implies (#[trigger] rules@[i]).id@ != (
                #[trigger] rules@[jx]).id@ by {
                    if jx == rules@.len() - 1 {
                        assert(rules@[i] == rules_pre[i]);
                    }
                }
            }
        }
        let message = message_string(f);
        let suppressed: Option<Vec<String>> = match &f.suppressed_rules {
            Option::Some(v) => Some(clone_strings(v)),
            Option::None => None,
        };
        let ghost results_pre = results_out@;
        results_out.push(
            ReportResult {
                rule_id: key,
                rule_index,
                message,
                path: f.path.clone(),
                start_line: f.line_number,
                linter: f.linter.clone(),
                scout_name: f.scout_name.clone(),
                suppressed_rules: suppressed,
            },
        );
        proof {
            assert forall|m: int| 0 <= m < k + 1 implies {
                let fm = (#[trigger] result.findings@[m])@;
                let e = results_out@[m];
                &&& e.rule_id@ == composite_key(fm)
                &&& (e.rule_index as int) < rules@.len()
                &&& rules@[e.rule_index as int].id@ == composite_key(fm)
                &&& e.message@ == report_message(fm)
                &&& e.path@ == fm.path
                &&& e.start_line as int == fm.line_number
                &&& e.linter@ == fm.linter
                &&& e.scout_name@ == fm.scout_name
                &&& (match e.suppressed_rules {
                    Option::Some(v) => fm.suppressed_rules matches Option::Some(sv)
                        && v.deep_view() == sv,
                    Option::None => fm.suppressed_rules is None,
                })
            } by {
                if m < k {
                    assert(results_out@[m] == results_pre[m]);
                }
            }
        }
        k += 1;
    }
    proof {
        assert(results_out@.len() == n);
    }
    Report { rules, results: results_out }
}

} // verus!
