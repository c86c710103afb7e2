//! The scanning engine's logic: per-file matching over shared read-only
//! scouts, and the deterministic aggregation of isolated per-file results
//! into one sorted scan result.  Walking the tree and reading files is the
//! caller's part; it hands paths and file contents in and per-file results
//! back.

use vstd::prelude::*;
use vstd::multiset::Multiset;
use vstd::seq_lib::lemma_multiset_commutative;
use vstd::string::{StrSliceExecFns, StringExecFns};

use crate::finding::{finding_key_eq, finding_key_le, finding_key_lt, finding_lt,
    lemma_finding_key_le_transitive, lemma_finding_key_trichotomy, Finding, FindingSpec};
use crate::pattern::pattern_matches;
use crate::rule::Rule;
use crate::scout::{spec_applies_to, Scout};
use crate::stats::ScanStats;
use crate::text::{spec_lines, split_lines};

verus! {

/// The isolated result of one file: its findings and errors, and whether it
/// was scanned or skipped.  A file is one or the other, never both.
pub struct FileResult {
    pub findings: Vec<Finding>,
    pub errors: Vec<String>,
    pub scanned: bool,
    pub skipped: bool,
}

/// Whether every scout's rules carry the texts their patterns were compiled
/// from.
pub open spec fn scouts_wf(scouts: Seq<Scout>) -> bool {
    forall|i: int| 0 <= i < scouts.len() ==> (#[trigger] scouts[i]).wf()
}

/// The per-file result of a file that could not be read: no findings, one
/// path-tagged error, counted skipped.
pub fn file_read_failure(path: &str, message: &str) -> (r: FileResult)
    ensures
        r.findings@.len() == 0,
        r.errors@.map_values(|e: String| e@) =~= seq![path@ + ": "@ + message@],
        !r.scanned,
        r.skipped,
{
    let mut e = path.to_owned();
    e.append(": ");
    e.append(message);
    let mut errors: Vec<String> = Vec::new();
    errors.push(e);
    FileResult { findings: Vec::new(), errors, scanned: false, skipped: true }
}

/// The finding that `rule` of `scout` yields on line `n` (1-based) of the
/// file at `path`.
pub open spec fn rule_finding(
    path: Seq<char>,
    n: int,
    line: Seq<char>,
    scout: Scout,
    rule: Rule,
) -> FindingSpec {
    FindingSpec {
        path: path,
        line_number: n,
        line_text: line,
        scout_name: scout.name@,
        linter: scout.linter@,
        rule_id: rule.id@,
        rule_description: rule.description@,
        suppressed_rules: rule.spec_suppressed(line),
    }
}

/// Whether one scout owns a path.
pub open spec fn scout_applies(s: Scout, path: Seq<char>) -> bool {
    spec_applies_to(s.extensions.deep_view(), path)
}

/// The scouts from position `si` on that own `path`, in declaration order.
pub open spec fn applicable_from(scouts: Seq<Scout>, path: Seq<char>, si: int) -> Seq<Scout>
    decreases scouts.len() - si,
{
    if si < 0 || si >= scouts.len() {
        Seq::empty()
    } else {
        let rest = applicable_from(scouts, path, si + 1);
        if scout_applies(scouts[si], path) {
            seq![scouts[si]] + rest
        } else {
            rest
        }
    }
}

/// The scouts that own `path`, in declaration order.
pub open spec fn applicable_scouts(scouts: Seq<Scout>, path: Seq<char>) -> Seq<Scout> {
    applicable_from(scouts, path, 0)
}

/// The findings that the rules of `scout` from position `ri` on yield on one
/// line: one per matching rule, in declaration order.
pub open spec fn rules_findings_from(
    path: Seq<char>,
    n: int,
    line: Seq<char>,
    scout: Scout,
    ri: int,
) -> Seq<FindingSpec>
    decreases scout.rules@.len() - ri,
{
    if ri < 0 || ri >= scout.rules@.len() {
        Seq::empty()
    } else {
        let rest = rules_findings_from(path, n, line, scout, ri + 1);
        if pattern_matches(scout.rules@[ri].pattern_str@, line) {
            seq![rule_finding(path, n, line, scout, scout.rules@[ri])] + rest
        } else {
            rest
        }
    }
}

/// The findings of one scout on one line.
pub open spec fn scout_line_findings(
    path: Seq<char>,
    n: int,
    line: Seq<char>,
    scout: Scout,
) -> Seq<FindingSpec> {
    rules_findings_from(path, n, line, scout, 0)
}

/// The findings that the scouts of `app` from position `si` on yield on one
/// line, scout by scout.
pub open spec fn line_findings_from(
    app: Seq<Scout>,
    path: Seq<char>,
    n: int,
    line: Seq<char>,
    si: int,
) -> Seq<FindingSpec>
    decreases app.len() - si,
{
    if si < 0 || si >= app.len() {
        Seq::empty()
    } else {
        scout_line_findings(path, n, line, app[si]) + line_findings_from(app, path, n, line, si + 1)
    }
}

/// The findings of one line across the scouts that own the path.
pub open spec fn line_findings(
    scouts: Seq<Scout>,
    path: Seq<char>,
    n: int,
    line: Seq<char>,
) -> Seq<FindingSpec> {
    line_findings_from(applicable_scouts(scouts, path), path, n, line, 0)
}

/// The findings of the lines from position `li` on, line by line.
pub open spec fn file_findings_from(
    scouts: Seq<Scout>,
    path: Seq<char>,
    lines: Seq<Seq<char>>,
    li: int,
) -> Seq<FindingSpec>
    decreases lines.len() - li,
{
    if li < 0 || li >= lines.len() {
        Seq::empty()
    } else {
        line_findings(scouts, path, li + 1, lines[li]) + file_findings_from(
            scouts,
            path,
            lines,
            li + 1,
        )
    }
}

/// Every finding of a file: for each 1-based line, for each applicable
/// scout, for each matching rule, in that nesting order.
pub open spec fn file_findings(
    scouts: Seq<Scout>,
    path: Seq<char>,
    content: Seq<char>,
) -> Seq<FindingSpec> {
    file_findings_from(scouts, path, spec_lines(content), 0)
}

/// Matches the full content of one readable file: emits one finding per
/// line, applicable scout and matching rule, with the identifiers the rule
/// extracts; counted scanned, never an error.
pub fn process_file_content(scouts: &Vec<Scout>, path: &str, content: &str) -> (r: FileResult)
    requires
        scouts_wf(scouts@),
    ensures
        r.findings@.map_values(|f: Finding| f@) == file_findings(scouts@, path@, content@),
        r.errors@.len() == 0,
        r.scanned,
        !r.skipped,
{
    let mut app: Vec<&Scout> = Vec::new();
    let n_scouts = scouts.len();
    let mut si: usize = 0;
    while si < n_scouts
        invariant
            si <= n_scouts,
            n_scouts == scouts@.len(),
            scouts_wf(scouts@),
            forall|k: int| 0 <= k < app@.len() ==> (#[trigger] app@[k]).wf(),
            app@.map_values(|s: &Scout| *s) + applicable_from(scouts@, path@, si as int)
                == applicable_scouts(scouts@, path@),
        decreases n_scouts - si,
    {
        let ghost pre_vals = app@.map_values(|s: &Scout| *s);
        let scout = &scouts[si];
        if scout.applies_to_file(path) {
            app.push(scout);
            proof {
                assert(app@.map_values(|s: &Scout| *s) =~= pre_vals.push(scouts@[si as int]));
                assert(pre_vals.push(scouts@[si as int]) + applicable_from(
                    scouts@,
                    path@,
                    si + 1,
                ) =~= pre_vals + (seq![scouts@[si as int]] + applicable_from(
                    scouts@,
                    path@,
                    si + 1,
                )));
            }
        }
        si += 1;
    }
    let ghost appv = applicable_scouts(scouts@, path@);
    proof {
        assert(applicable_from(scouts@, path@, n_scouts as int) =~= Seq::<Scout>::empty());
        assert(app@.map_values(|s: &Scout| *s) + Seq::<Scout>::empty() =~= app@.map_values(
            |s: &Scout| *s,
        ));
    }
    let lines = split_lines(content);
    let path_string = path.to_owned();
    let mut findings: Vec<Finding> = Vec::new();
    let n_lines = lines.len();
    let mut li: usize = 0;
    while li < n_lines
        invariant
            li <= n_lines,
            n_lines == lines@.len(),
            lines.deep_view() == spec_lines(content@),
            path_string@ == path@,
            app@.map_values(|s: &Scout| *s) == appv,
            appv == applicable_scouts(scouts@, path@),
            forall|k: int| 0 <= k < app@.len() ==> (#[trigger] app@[k]).wf(),
            findings@.map_values(|f: Finding| f@) + file_findings_from(
                scouts@,
                path@,
                spec_lines(content@),
                li as int,
            ) == file_findings(scouts@, path@, content@),
        decreases n_lines - li,
    {
        let ghost pre_outer = findings@.map_values(|f: Finding| f@);
        let ghost linev = spec_lines(content@)[li as int];
        let line = &lines[li];
        proof {
            assert(lines.deep_view()[li as int] == lines@[li as int].deep_view());
            assert(line@ == linev);
        }
        let line_no = li + 1;
        let n_app = app.len();
        let mut ai: usize = 0;
        while ai < n_app
            invariant
                ai <= n_app,
                n_app == app@.len(),
                path_string@ == path@,
                line@ == linev,
                line_no == li + 1,
                li < n_lines,
                app@.map_values(|s: &Scout| *s) == appv,
                forall|k: int| 0 <= k < app@.len() ==> (#[trigger] app@[k]).wf(),
                findings@.map_values(|f: Finding| f@) + line_findings_from(
                    appv,
                    path@,
                    li + 1,
                    linev,
                    ai as int,
                ) == pre_outer + line_findings_from(appv, path@, li + 1, linev, 0),
            decreases n_app - ai,
        {
            let ghost pre_middle = findings@.map_values(|f: Finding| f@);
            let scout = app[ai];
            let ghost scoutv = appv[ai as int];
            proof {
                assert(app@.map_values(|s: &Scout| *s)[ai as int] == appv[ai as int]);
                assert(*scout == scoutv);
                assert(scoutv.wf());
            }
            let n_rules = scout.rules.len();
            let mut ri: usize = 0;
            while ri < n_rules
                invariant
                    ri <= n_rules,
                    n_rules == scout.rules@.len(),
                    path_string@ == path@,
                    line@ == linev,
                    line_no == li + 1,
                    li < n_lines,
                    *scout == scoutv,
                    scoutv.wf(),
                    findings@.map_values(|f: Finding| f@) + rules_findings_from(
                        path@,
                        li + 1,
                        linev,
                        scoutv,
                        ri as int,
                    ) == pre_middle + scout_line_findings(path@, li + 1, linev, scoutv),
                decreases n_rules - ri,
            {
                let ghost pre_inner = findings@.map_values(|f: Finding| f@);
                let rule = &scout.rules[ri];
                proof {
                    assert(*rule == scoutv.rules@[ri as int]);
                    assert(rule.wf());
                }
                if rule.is_match(line.as_str()) {
                    let suppressed = rule.capture_suppressed_rules(line.as_str());
                    findings.push(
                        Finding {
                            path: path_string.clone(),
                            line_number: line_no,
                            line_text: line.clone(),
                            scout_name: scout.name.clone(),
                            linter: scout.linter.clone(),
                            rule_id: rule.id.clone(),
                            rule_description: rule.description.clone(),
                            suppressed_rules: suppressed,
                        },
                    );
                    proof {
                        let pushed = findings@.last();
                        assert(pushed@.suppressed_rules == scoutv.rules@[
                            ri as int
                        ].spec_suppressed(linev)) by {
                            match suppressed {
                                Option::Some(v) => {},
                                Option::None => {},
                            }
                        }
                        assert(pushed@ == rule_finding(
                            path@,
                            li + 1,
                            linev,
                            scoutv,
                            scoutv.rules@[ri as int],
                        ));
                        assert(findings@.map_values(|f: Finding| f@) =~= pre_inner.push(
                            pushed@,
                        ));
                        assert(pre_inner.push(pushed@) + rules_findings_from(
                            path@,
                            li + 1,
                            linev,
                            scoutv,
                            ri + 1,
                        ) =~= pre_inner + (seq![pushed@] + rules_findings_from(
                            path@,
                            li + 1,
                            linev,
                            scoutv,
                            ri + 1,
                        )));
                    }
                }
                ri += 1;
            }
            proof {
                assert(rules_findings_from(path@, li + 1, linev, scoutv, n_rules as int)
                    =~= Seq::<FindingSpec>::empty());
                assert(findings@.map_values(|f: Finding| f@) + Seq::<FindingSpec>::empty()
                    =~= findings@.map_values(|f: Finding| f@));
                assert(line_findings_from(appv, path@, li + 1, linev, ai as int)
                    == scout_line_findings(path@, li + 1, linev, scoutv) + line_findings_from(
                    appv,
                    path@,
                    li + 1,
                    linev,
                    ai + 1,
                ));
                assert((pre_middle + scout_line_findings(path@, li + 1, linev, scoutv))
                    + line_findings_from(appv, path@, li + 1, linev, ai + 1) =~= pre_middle + (
                scout_line_findings(path@, li + 1, linev, scoutv) + line_findings_from(
                    appv,
                    path@,
                    li + 1,
                    linev,
                    ai + 1,
                )));
            }
            ai += 1;
        }
        proof {
            assert(line_findings_from(appv, path@, li + 1, linev, n_app as int)
                =~= Seq::<FindingSpec>::empty());
            assert(findings@.map_values(|f: Finding| f@) + Seq::<FindingSpec>::empty()
                =~= findings@.map_values(|f: Finding| f@));
            assert(line_findings(scouts@, path@, li + 1, linev) == line_findings_from(
                appv,
                path@,
                li + 1,
                linev,
                0,
            ));
            assert(file_findings_from(scouts@, path@, spec_lines(content@), li as int)
                == line_findings(scouts@, path@, li + 1, linev) + file_findings_from(
                scouts@,
                path@,
                spec_lines(content@),
                li + 1,
            ));
            assert((pre_outer + line_findings_from(appv, path@, li + 1, linev, 0))
                + file_findings_from(scouts@, path@, spec_lines(content@), li + 1) =~= pre_outer
                + (line_findings_from(appv, path@, li + 1, linev, 0) + file_findings_from(
                scouts@,
                path@,
                spec_lines(content@),
                li + 1,
            )));
        }
        li += 1;
    }
    proof {
        assert(file_findings_from(scouts@, path@, spec_lines(content@), n_lines as int)
            =~= Seq::<FindingSpec>::empty());
        assert(findings@.map_values(|f: Finding| f@) + Seq::<FindingSpec>::empty()
            =~= findings@.map_values(|f: Finding| f@));
    }
    FileResult { findings, errors: Vec::new(), scanned: true, skipped: false }
}

/// Whether `s` is ordered by the sort key: path, then line, then scout name,
/// then rule id.
pub open spec fn findings_sorted(s: Seq<Finding>) -> bool {
    forall|i: int, j: int|
        0 <= i < j < s.len() ==> finding_key_le(#[trigger] s[i], #[trigger] s[j])
}

proof fn lemma_insert_to_multiset(s: Seq<Finding>, i: int, x: Finding)
    requires
        0 <= i <= s.len(),
    ensures
        s.insert(i, x).to_multiset() =~= s.to_multiset().insert(x),
{
    broadcast use vstd::multiset::group_multiset_axioms;

    let left = s.subrange(0, i);
    let right = s.subrange(i, s.len() as int);
    lemma_multiset_commutative(left.push(x), right);
    left.to_multiset_ensures();
    lemma_multiset_commutative(left, right);
    assert(left + right =~= s);
}

/// `x` inserted into `s` before the first element not strictly below it in
/// the key order.
pub open spec fn spec_insert_sorted(s: Seq<Finding>, x: Finding) -> Seq<Finding>
    decreases s.len(),
{
    if s.len() == 0 {
        seq![x]
    } else if finding_key_lt(s[0], x) {
        seq![s[0]] + spec_insert_sorted(s.drop_first(), x)
    } else {
        seq![x] + s
    }
}

/// The findings of `v` in the sort key order, equal keys keeping their input
/// order: each element, last to first, inserted before the first element not
/// strictly below it.
pub open spec fn spec_sort_findings(v: Seq<Finding>) -> Seq<Finding>
    decreases v.len(),
{
    if v.len() == 0 {
        Seq::empty()
    } else {
        spec_insert_sorted(spec_sort_findings(v.drop_first()), v[0])
    }
}

proof fn lemma_insert_sorted_at(s: Seq<Finding>, x: Finding, j: int)
    requires
        0 <= j <= s.len(),
        forall|k: int| 0 <= k < j ==> finding_key_lt(#[trigger] s[k], x),
        j < s.len() ==> !finding_key_lt(s[j], x),
    ensures
        spec_insert_sorted(s, x) =~= s.insert(j, x),
    decreases s.len(),
{
    if s.len() == 0 {
        assert(s.insert(0, x) =~= seq![x]);
    } else if j == 0 {
        assert(s.insert(0, x) =~= seq![x] + s);
    } else {
        lemma_insert_sorted_at(s.drop_first(), x, j - 1);
        assert(seq![s[0]] + s.drop_first().insert(j - 1, x) =~= s.insert(j, x));
    }
}

/// The findings sorted by (path, line, scout name, rule id): exactly
/// `spec_sort_findings` of the input — a stable permutation in that key
/// order.  The unordered completion order of the per-file stage never shows
/// in the result.
pub fn sort_findings(findings: Vec<Finding>) -> (r: Vec<Finding>)
    ensures
        r@ == spec_sort_findings(findings@),
        r@.to_multiset() == findings@.to_multiset(),
        findings_sorted(r@),
        r@.len() == findings@.len(),
{
    broadcast use vstd::seq_lib::group_to_multiset_ensures;

    let mut v = findings;
    let mut r: Vec<Finding> = Vec::new();
    proof {
        assert(r@.to_multiset() =~= Multiset::<Finding>::empty());
        broadcast use vstd::multiset::group_multiset_axioms;

        assert(r@.to_multiset().add(v@.to_multiset()) =~= findings@.to_multiset());
        assert(v@ =~= findings@.take(v@.len() as int));
        assert(findings@.skip(v@.len() as int) =~= Seq::<Finding>::empty());
    }
    while v.len() > 0
        invariant
            r@.to_multiset().add(v@.to_multiset()) == findings@.to_multiset(),
            findings_sorted(r@),
            r@.len() + v@.len() == findings@.len(),
            v@ == findings@.take(v@.len() as int),
            r@ == spec_sort_findings(findings@.skip(v@.len() as int)),
        decreases v@.len(),
    {
        let ghost v_pre = v@;
        let ghost r_pre = r@;
        let x = v.pop().unwrap();
        proof {
            assert(v@ =~= v_pre.drop_last());
            assert(v_pre.drop_last() =~= v_pre.remove(v_pre.len() - 1));
            v_pre.to_multiset_ensures();
            assert(v@.to_multiset() =~= v_pre.to_multiset().remove(x));
            assert(v@ =~= findings@.take(v@.len() as int));
            assert(x == findings@[v@.len() as int]);
        }
        let mut j: usize = 0;
        while j < r.len() && finding_lt(&r[j], &x)
            invariant
                j <= r@.len(),
                forall|k: int| 0 <= k < j ==> finding_key_lt(#[trigger] r@[k], x),
            decreases r@.len() - j,
        {
            j += 1;
        }
        proof {
            // the chosen position keeps the order
            if (j as int) < r@.len() {
                assert(finding_key_le(x, r@[j as int]));
                assert forall|k: int| j <= k < r@.len() implies finding_key_le(
                    x,
                    #[trigger] r@[k],
                ) by {
                    if k > j {
                        lemma_finding_key_le_transitive(x, r@[j as int], r@[k]);
                    }
                }
            }
            assert forall|k: int| 0 <= k < j implies finding_key_le(#[trigger] r@[k], x) by {
                lemma_finding_key_trichotomy(r@[k], x);
            }
            lemma_insert_to_multiset(r@, j as int, x);
            r@.insert_ensures(j as int, x);
            lemma_insert_sorted_at(r@, x, j as int);
            broadcast use vstd::multiset::group_multiset_axioms;

            assert(r@.insert(j as int, x).to_multiset().add(v@.to_multiset())
                =~= findings@.to_multiset());
        }
        r.insert(j, x);
        proof {
            assert forall|i1: int, i2: int|
                0 <= i1 < i2 < r@.len() implies finding_key_le(
                #[trigger] r@[i1],
                #[trigger] r@[i2],
            ) by {
                if i2 < j {
                } else if i1 == j as int {
                    assert(r@[i2] == r_pre[i2 - 1]);
                } else if i2 == j as int {
                    assert(r@[i1] == r_pre[i1]);
                } else if i1 > j as int {
                    assert(r@[i1] == r_pre[i1 - 1]);
                    assert(r@[i2] == r_pre[i2 - 1]);
                } else {
                    // i1 < j < i2
                    assert(r@[i1] == r_pre[i1]);
                    assert(r@[i2] == r_pre[i2 - 1]);
                }
            }
            // one unfolding of the sort over the grown suffix
            let ghost suffix = findings@.skip(v@.len() as int);
            assert(suffix[0] == x);
            assert(suffix.drop_first() =~= findings@.skip(v@.len() as int + 1));
            assert(spec_sort_findings(suffix) == spec_insert_sorted(r_pre, x));
            assert(r@ =~= r_pre.insert(j as int, x));
        }
    }
    proof {
        assert(findings@.skip(0) =~= findings@);
    }
    r
}

proof fn lemma_filter_singleton(y: Finding, p: spec_fn(Finding) -> bool)
    ensures
        seq![y].filter(p) == if p(y) {
            seq![y]
        } else {
            Seq::<Finding>::empty()
        },
{
    reveal(Seq::filter);
    assert(Seq::<Finding>::empty().filter(p) =~= Seq::<Finding>::empty());
    assert(seq![y].drop_last() =~= Seq::<Finding>::empty());
    if p(y) {
        assert(seq![y].filter(p) =~= seq![y]);
    } else {
        assert(seq![y].filter(p) =~= Seq::<Finding>::empty());
    }
}

proof fn lemma_key_eq_not_lt(a: Finding, b: Finding)
    requires
        finding_key_eq(a, b),
    ensures
        !finding_key_lt(a, b),
        !finding_key_lt(b, a),
{
    lemma_finding_key_trichotomy(a, b);
    assert(finding_key_lt(a, b) == finding_key_lt(b, a));
}

proof fn lemma_insert_sorted_filter(
    s: Seq<Finding>,
    x: Finding,
    p: spec_fn(Finding) -> bool,
    pivot: Finding,
)
    requires
        forall|y: Finding| #[trigger] p(y) == finding_key_eq(y, pivot),
    ensures
        spec_insert_sorted(s, x).filter(p) == if p(x) {
            seq![x] + s.filter(p)
        } else {
            s.filter(p)
        },
    decreases s.len(),
{
    lemma_filter_singleton(x, p);
    if s.len() == 0 {
        reveal(Seq::filter);
        assert(s.filter(p) =~= Seq::<Finding>::empty());
        if p(x) {
            assert(seq![x].filter(p) =~= seq![x] + s.filter(p));
        }
    } else if finding_key_lt(s[0], x) {
        lemma_insert_sorted_filter(s.drop_first(), x, p, pivot);
        lemma_filter_singleton(s[0], p);
        Seq::filter_distributes_over_add(seq![s[0]], spec_insert_sorted(s.drop_first(), x), p);
        Seq::filter_distributes_over_add(seq![s[0]], s.drop_first(), p);
        assert(seq![s[0]] + s.drop_first() =~= s);
        if p(x) {
            // an element strictly below x cannot share the pivot key
            if p(s[0]) {
                assert(finding_key_eq(s[0], x));
                lemma_key_eq_not_lt(s[0], x);
            }
            assert(!p(s[0]));
            assert(seq![s[0]].filter(p) =~= Seq::<Finding>::empty());
            assert(spec_insert_sorted(s, x).filter(p) =~= seq![x] + s.filter(p));
        } else {
            assert(spec_insert_sorted(s, x).filter(p) =~= s.filter(p));
        }
    } else {
        Seq::filter_distributes_over_add(seq![x], s, p);
        if p(x) {
            assert(spec_insert_sorted(s, x).filter(p) =~= seq![x] + s.filter(p));
        } else {
            assert(spec_insert_sorted(s, x).filter(p) =~= s.filter(p));
        }
    }
}

/// The sort is stable: for any pivot, the findings whose key equals the
/// pivot's come out of the sort exactly in their input order — equal-keyed
/// findings are never reordered.
pub proof fn lemma_sort_findings_stable(v: Seq<Finding>, pivot: Finding)
    ensures
        spec_sort_findings(v).filter(|f: Finding| finding_key_eq(f, pivot)) == v.filter(
            |f: Finding| finding_key_eq(f, pivot),
        ),
    decreases v.len(),
{
    if v.len() == 0 {
        reveal(Seq::filter);
        assert(spec_sort_findings(v).filter(|f: Finding| finding_key_eq(f, pivot))
            =~= Seq::<Finding>::empty());
        assert(v.filter(|f: Finding| finding_key_eq(f, pivot)) =~= Seq::<Finding>::empty());
    } else {
        lemma_sort_findings_stable(v.drop_first(), pivot);
        lemma_insert_sorted_filter(
            spec_sort_findings(v.drop_first()),
            v[0],
            |f: Finding| finding_key_eq(f, pivot),
            pivot,
        );
        Seq::filter_distributes_over_add(
            seq![v[0]],
            v.drop_first(),
            |f: Finding| finding_key_eq(f, pivot),
        );
        assert(seq![v[0]] + v.drop_first() =~= v);
        lemma_filter_singleton(v[0], |f: Finding| finding_key_eq(f, pivot));
        if finding_key_eq(v[0], pivot) {
            assert(spec_sort_findings(v).filter(|f: Finding| finding_key_eq(f, pivot)) =~= seq![
                v[0],
            ] + v.drop_first().filter(|f: Finding| finding_key_eq(f, pivot)));
            assert(v.filter(|f: Finding| finding_key_eq(f, pivot)) =~= seq![v[0]]
                + v.drop_first().filter(|f: Finding| finding_key_eq(f, pivot)));
        } else {
            assert(v.filter(|f: Finding| finding_key_eq(f, pivot)) =~= v.drop_first().filter(
                |f: Finding| finding_key_eq(f, pivot),
            ));
        }
    }
}

/// Whether no two distinct findings of `s` share a sort key.
pub open spec fn keys_distinct(s: Seq<Finding>) -> bool {
    forall|a: Finding, b: Finding|
        s.contains(a) && s.contains(b) && finding_key_eq(a, b) ==> a == b
}

/// Determinism of the sorted output: two sequences holding the same findings
/// — in whatever order the per-file stage completed — both in the sort key
/// order, with no key shared between distinct findings, are equal.  Two runs
/// over an unchanged tree and rule set therefore produce identical sorted
/// finding sequences.
pub proof fn lemma_sorted_findings_unique(x: Seq<Finding>, y: Seq<Finding>)
    requires
        findings_sorted(x),
        findings_sorted(y),
        x.to_multiset() == y.to_multiset(),
        keys_distinct(x),
    ensures
        x =~= y,
    decreases x.len(),
{
    broadcast use vstd::seq_lib::group_to_multiset_ensures;
    broadcast use vstd::multiset::group_multiset_axioms;

    assert(x.len() == x.to_multiset().len());
    assert(y.len() == y.to_multiset().len());
    if x.len() > 0 {
        assert(x.contains(x[0]));
        assert(y.to_multiset().count(x[0]) > 0);
        assert(y.contains(x[0]));
        let i = choose|i: int| 0 <= i < y.len() && y[i] == x[0];
        assert(y.contains(y[0]));
        assert(x.to_multiset().count(y[0]) > 0);
        assert(x.contains(y[0]));
        let j = choose|j: int| 0 <= j < x.len() && x[j] == y[0];
        assert(finding_key_le(y[0], x[0])) by {
            if i > 0 {
                assert(finding_key_le(y[0], y[i]));
            } else {
                lemma_finding_key_trichotomy(y[0], x[0]);
            }
        }
        assert(finding_key_le(x[0], y[0])) by {
            if j > 0 {
                assert(finding_key_le(x[0], x[j]));
            } else {
                lemma_finding_key_trichotomy(x[0], y[0]);
            }
        }
        lemma_finding_key_trichotomy(x[0], y[0]);
        assert(finding_key_eq(x[0], y[0]));
        assert(x[0] == y[0]);
        let xr = x.drop_first();
        let yr = y.drop_first();
        assert(xr =~= x.remove(0));
        assert(yr =~= y.remove(0));
        assert(xr.to_multiset() =~= x.to_multiset().remove(x[0]));
        assert(yr.to_multiset() =~= y.to_multiset().remove(y[0]));
        assert(findings_sorted(xr)) by {
            assert forall|a: int, b: int|
                0 <= a < b < xr.len() implies finding_key_le(#[trigger] xr[a], #[trigger] xr[b]) by {
                assert(xr[a] == x[a + 1]);
                assert(xr[b] == x[b + 1]);
            }
        }
        assert(findings_sorted(yr)) by {
            assert forall|a: int, b: int|
                0 <= a < b < yr.len() implies finding_key_le(#[trigger] yr[a], #[trigger] yr[b]) by {
                assert(yr[a] == y[a + 1]);
                assert(yr[b] == y[b + 1]);
            }
        }
        assert(keys_distinct(xr)) by {
            assert forall|a: Finding, b: Finding|
                xr.contains(a) && xr.contains(b) && finding_key_eq(a, b) implies a == b by {
                assert(xr.to_multiset().count(a) > 0);
                assert(x.to_multiset().count(a) > 0);
                assert(x.contains(a));
                assert(xr.to_multiset().count(b) > 0);
                assert(x.to_multiset().count(b) > 0);
                assert(x.contains(b));
            }
        }
        lemma_sorted_findings_unique(xr, yr);
        assert(x =~= seq![x[0]] + xr);
        assert(y =~= seq![y[0]] + yr);
    }
}

/// The sort invariant read both ways: in a sorted sequence whose findings
/// share no key, one finding precedes another exactly when its key is the
/// smaller under (path, line, scout name, rule id).
pub proof fn lemma_sorted_findings_position_iff(s: Seq<Finding>, i: int, j: int)
    requires
        findings_sorted(s),
        keys_distinct(s),
        0 <= i < s.len(),
        0 <= j < s.len(),
        s[i] == s[j] ==> i == j,
    ensures
        i < j <==> finding_key_lt(s[i], s[j]),
{
    broadcast use vstd::seq_lib::group_to_multiset_ensures;

    lemma_finding_key_trichotomy(s[i], s[j]);
    assert(s.contains(s[i]));
    assert(s.contains(s[j]));
    if i < j {
        assert(finding_key_le(s[i], s[j]));
        if !finding_key_lt(s[i], s[j]) {
            assert(finding_key_eq(s[i], s[j]));
            assert(s[i] == s[j]);
        }
    } else if i > j {
        assert(finding_key_le(s[j], s[i]));
        if finding_key_lt(s[i], s[j]) {
            assert(false);
        }
    }
}

/// The number of per-file results counted scanned.
pub open spec fn total_scanned(rs: Seq<FileResult>) -> int
    decreases rs.len(),
{
    if rs.len() == 0 {
        0
    } else {
        (if rs[0].scanned {
            1int
        } else {
            0int
        }) + total_scanned(rs.drop_first())
    }
}

/// The number of per-file results counted skipped.
pub open spec fn total_skipped(rs: Seq<FileResult>) -> int
    decreases rs.len(),
{
    if rs.len() == 0 {
        0
    } else {
        (if rs[0].skipped {
            1int
        } else {
            0int
        }) + total_skipped(rs.drop_first())
    }
}

/// Every finding of the per-file results, in input order.
pub open spec fn all_findings(rs: Seq<FileResult>) -> Seq<Finding>
    decreases rs.len(),
{
    if rs.len() == 0 {
        Seq::empty()
    } else {
        rs[0].findings@ + all_findings(rs.drop_first())
    }
}

/// Every error string of the per-file results, in input order.
pub open spec fn all_errors(rs: Seq<FileResult>) -> Seq<String>
    decreases rs.len(),
{
    if rs.len() == 0 {
        Seq::empty()
    } else {
        rs[0].errors@ + all_errors(rs.drop_first())
    }
}

proof fn lemma_total_bounds(rs: Seq<FileResult>)
    ensures
        0 <= total_scanned(rs) <= rs.len(),
        0 <= total_skipped(rs) <= rs.len(),
    decreases rs.len(),
{
    if rs.len() > 0 {
        lemma_total_bounds(rs.drop_first());
    }
}

/// An immutable snapshot of one run: the sorted findings, the final
/// counters, and the diagnostic strings.
pub struct ScanResult {
    pub findings: Vec<Finding>,
    pub stats: ScanStats,
    pub errors: Vec<String>,
}

/// Sums the per-file counters exactly once each, concatenates findings and
/// errors, and sorts the findings into the key order: the unordered
/// completion order of the per-file stage never shows in the result.
pub fn aggregate(
    files_walked: u64,
    walk_errors: Vec<String>,
    skipped_no_scout: u64,
    results: Vec<FileResult>,
    duration_ms: u64,
) -> (r: ScanResult)
    requires
        skipped_no_scout + total_skipped(results@) <= u64::MAX,
        walk_errors@.len() + all_errors(results@).len() <= u64::MAX,
    ensures
        r.stats.files_walked == files_walked,
        r.stats.files_scanned == total_scanned(results@),
        r.stats.files_skipped == skipped_no_scout + total_skipped(results@),
        r.stats.findings_count == all_findings(results@).len(),
        r.stats.errors_count == walk_errors@.len() + all_errors(results@).len(),
        r.stats.duration_ms == duration_ms,
        r.findings@ == spec_sort_findings(all_findings(results@)),
        r.findings@.to_multiset() == all_findings(results@).to_multiset(),
        r.findings@.len() == all_findings(results@).len(),
        findings_sorted(r.findings@),
        r.errors@ == walk_errors@ + all_errors(results@),
{
    let ghost results0 = results@;
    let n0 = results.len();
    let mut findings: Vec<Finding> = Vec::new();
    let mut errors = walk_errors;
    let mut results = results;
    let mut scanned: u64 = 0;
    let mut skipped: u64 = skipped_no_scout;
    proof {
        lemma_total_bounds(results0);
        assert(results0.len() == n0 as int);
        assert(findings@ + all_findings(results@) =~= all_findings(results0));
        assert(errors@ + all_errors(results@) =~= walk_errors@ + all_errors(results0));
    }
    while results.len() > 0
        invariant
            scanned + total_scanned(results@) == total_scanned(results0),
            skipped + total_skipped(results@) == skipped_no_scout + total_skipped(results0),
            findings@ + all_findings(results@) == all_findings(results0),
            errors@ + all_errors(results@) == walk_errors@ + all_errors(results0),
            skipped_no_scout + total_skipped(results0) <= u64::MAX,
            0 <= total_scanned(results@) <= results@.len(),
            0 <= total_skipped(results@) <= results@.len(),
            total_scanned(results0) <= results0.len(),
            results0.len() == n0 as int,
        decreases results@.len(),
    {
        let ghost rs_pre = results@;
        let mut fr = results.remove(0);
        proof {
            assert(results@ =~= rs_pre.drop_first());
            lemma_total_bounds(results@);
            lemma_total_bounds(results0);
        }
        if fr.scanned {
            scanned = scanned + 1;
        }
        if fr.skipped {
            skipped = skipped + 1;
        }
        let ghost f_pre = findings@;
        let ghost e_pre = errors@;
        findings.append(&mut fr.findings);
        errors.append(&mut fr.errors);
        proof {
            assert(findings@ =~= f_pre + rs_pre[0].findings@);
            assert(errors@ =~= e_pre + rs_pre[0].errors@);
            assert((f_pre + rs_pre[0].findings@) + all_findings(rs_pre.drop_first()) =~= f_pre + (
            rs_pre[0].findings@ + all_findings(rs_pre.drop_first())));
            assert((e_pre + rs_pre[0].errors@) + all_errors(rs_pre.drop_first()) =~= e_pre + (
            rs_pre[0].errors@ + all_errors(rs_pre.drop_first())));
        }
    }
    proof {
        assert(findings@ + Seq::<Finding>::empty() =~= findings@);
        assert(errors@ + Seq::<String>::empty() =~= errors@);
        assert(findings@ =~= all_findings(results0));
        assert(errors@ =~= walk_errors@ + all_errors(results0));
    }
    let sorted = sort_findings(findings);
    let findings_count = sorted.len() as u64;
    let errors_count = errors.len() as u64;
    let stats = ScanStats {
        files_walked,
        files_scanned: scanned,
        files_skipped: skipped,
        findings_count,
        errors_count,
        duration_ms,
    };
    ScanResult { findings: sorted, stats, errors }
}

/// The scan configuration: the root to walk, the scouts to apply, the
/// operator-supplied exclude globs, and whether repository ignore rules are
/// honored.  Walking and reading are the caller's part.
pub struct Scanner {
    pub root_path: String,
    pub scouts: Vec<Scout>,
    pub exclude_patterns: Vec<String>,
    pub respect_gitignore: bool,
}

impl Scanner {
    /// A scanner over `path` with the given scouts: no excludes, ignore
    /// rules honored.
    pub fn new(path: &str, scouts: Vec<Scout>) -> (r: Scanner)
        ensures
            r.root_path@ == path@,
            r.scouts == scouts,
            r.exclude_patterns@.len() == 0,
            r.respect_gitignore,
    {
        Scanner {
            root_path: path.to_owned(),
            scouts,
            exclude_patterns: Vec::new(),
            respect_gitignore: true,
        }
    }

    /// The same scanner with the exclude-glob list replaced.
    pub fn with_excludes(self, excludes: Vec<String>) -> (r: Scanner)
        ensures
            r == (Scanner { exclude_patterns: excludes, ..self }),
    {
        Scanner { exclude_patterns: excludes, ..self }
    }

    /// The same scanner with the ignore-rules flag replaced.
    pub fn with_gitignore(self, respect: bool) -> (r: Scanner)
        ensures
            r == (Scanner { respect_gitignore: respect, ..self }),
    {
        Scanner { respect_gitignore: respect, ..self }
    }
}

} // verus!
