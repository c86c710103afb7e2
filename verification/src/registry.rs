//! Composition of the scout set for one run: the builtin catalog first, then
//! user-config scouts, then name-based include and exclude filtering.  Name
//! collisions are not rejected: both scouts coexist unless excluded.

use vstd::prelude::*;

use crate::builtin;
use crate::builtin::{builtin_patterns_compile, is_builtin_catalog};
use crate::config::{bad_pattern_message, built_scout, first_bad_pattern, Config};
use crate::error::LintScoutError;
use crate::scanner::scouts_wf;
use crate::scout::Scout;
use crate::text::str_eq;

verus! {

/// Whether `name` occurs in `names`.
pub open spec fn name_listed(name: Seq<char>, names: Seq<Seq<char>>) -> bool {
    exists|k: int| 0 <= k < names.len() && names[k] == name
}

/// The scouts from position `si` on whose name's membership in `names`
/// equals `keep_listed`, in order.
pub open spec fn retained_from(
    scouts: Seq<Scout>,
    names: Seq<Seq<char>>,
    keep_listed: bool,
    si: int,
) -> Seq<Scout>
    decreases scouts.len() - si,
{
    if si < 0 || si >= scouts.len() {
        Seq::empty()
    } else {
        let rest = retained_from(scouts, names, keep_listed, si + 1);
        if name_listed(scouts[si].name@, names) == keep_listed {
            seq![scouts[si]] + rest
        } else {
            rest
        }
    }
}

proof fn lemma_retained_wf(scouts: Seq<Scout>, names: Seq<Seq<char>>, keep_listed: bool, si: int)
    requires
        scouts_wf(scouts),
    ensures
        scouts_wf(retained_from(scouts, names, keep_listed, si)),
    decreases scouts.len() - si,
{
    if 0 <= si < scouts.len() {
        lemma_retained_wf(scouts, names, keep_listed, si + 1);
    }
}

fn name_listed_exec(name: &str, names: &Vec<String>) -> (r: bool)
    ensures
        r == name_listed(name@, names.deep_view()),
{
    let n = names.len();
    let mut i: usize = 0;
    while i < n
        invariant
            i <= n,
            n == names@.len(),
            forall|k: int| 0 <= k < i ==> names.deep_view()[k] != name@,
        decreases n - i,
    {
        proof {
            assert(names.deep_view()[i as int] == names@[i as int].deep_view());
        }
        if str_eq(names[i].as_str(), name) {
            return true;
        }
        i += 1;
    }
    false
}

/// The scout set under construction: builtins and user scouts composed in
/// strict order, then filtered.
pub struct ScoutRegistry {
    pub scouts: Vec<Scout>,
}

impl ScoutRegistry {
    /// An empty registry.
    pub fn new() -> (r: ScoutRegistry)
        ensures
            r.scouts@.len() == 0,
    {
        ScoutRegistry { scouts: Vec::new() }
    }

    /// Appends the whole builtin catalog, eslint first and ktlint last;
    /// succeeds exactly when every builtin pattern compiles (a failure is a
    /// build defect, not a runtime condition).
    pub fn with_builtins(self) -> (r: Result<ScoutRegistry, LintScoutError>)
        ensures
            r is Ok <==> builtin_patterns_compile(),
            r is Ok ==> {
                let s = r->Ok_0.scouts@;
                &&& s.len() == self.scouts@.len() + 27
                &&& s.take(self.scouts@.len() as int) == self.scouts@
                &&& is_builtin_catalog(s.skip(self.scouts@.len() as int))
                &&& (scouts_wf(self.scouts@) ==> scouts_wf(s))
            },
            r is Err ==> r->Err_0 is InvalidPattern,
    {
        let ghost pre = self.scouts@;
        let mut this = self;
        match builtin::all() {
            Ok(mut v) => {
                let ghost added = v@;
                this.scouts.append(&mut v);
                proof {
                    assert(this.scouts@.take(pre.len() as int) =~= pre);
                    assert(this.scouts@.skip(pre.len() as int) =~= added);
                    if scouts_wf(pre) {
                        assert forall|k: int| 0 <= k < this.scouts@.len() implies (
                        #[trigger] this.scouts@[k]).wf() by {
                            if k < pre.len() {
                                assert(this.scouts@[k] == pre[k]);
                            } else {
                                assert(this.scouts@[k] == added[k - pre.len()]);
                            }
                        }
                    }
                }
                Ok(this)
            },
            Err(e) => Err(e),
        }
    }

    /// Appends the scouts built from the user configuration; any single
    /// invalid pattern aborts composition with an error naming the scout and
    /// the offending pattern text.
    pub fn with_config(self, config: &Config) -> (r: Result<ScoutRegistry, LintScoutError>)
        ensures
            r is Ok <==> first_bad_pattern(config.scouts@, 0) is None,
            r is Ok ==> {
                let s = r->Ok_0.scouts@;
                &&& s.len() == self.scouts@.len() + config.scouts@.len()
                &&& s.take(self.scouts@.len() as int) == self.scouts@
                &&& forall|k: int|
                    0 <= k < config.scouts@.len() ==> built_scout(
                        #[trigger] s[self.scouts@.len() + k],
                        config.scouts@[k],
                    )
            },
            r is Err ==> match first_bad_pattern(config.scouts@, 0) {
                Option::Some((name, pattern)) => (r->Err_0 matches LintScoutError::Config(m)
                    && m@ == bad_pattern_message(name, pattern)),
                Option::None => false,
            },
    {
        let ghost pre = self.scouts@;
        let mut this = self;
        match config.build_custom_scouts() {
            Ok(mut v) => {
                this.scouts.append(&mut v);
                proof {
                    assert(this.scouts@.take(pre.len() as int) =~= pre);
                }
                Ok(this)
            },
            Err(e) => Err(e),
        }
    }

    /// With a non-empty name set, retains only the scouts named; an empty
    /// set means no filtering.
    pub fn filter(self, names: &Vec<String>) -> (r: ScoutRegistry)
        ensures
            names@.len() == 0 ==> r.scouts == self.scouts,
            names@.len() > 0 ==> r.scouts@ == retained_from(
                self.scouts@,
                names.deep_view(),
                true,
                0,
            ),
            scouts_wf(self.scouts@) ==> scouts_wf(r.scouts@),
    {
        if names.len() == 0 {
            return self;
        }
        proof {
            if scouts_wf(self.scouts@) {
                lemma_retained_wf(self.scouts@, names.deep_view(), true, 0);
            }
        }
        ScoutRegistry { scouts: retain_scouts(self.scouts, names, true) }
    }

    /// Removes the scouts named; an empty set removes nothing, and an absent
    /// name is not an error.
    pub fn exclude(self, names: &Vec<String>) -> (r: ScoutRegistry)
        ensures
            names@.len() == 0 ==> r.scouts == self.scouts,
            names@.len() > 0 ==> r.scouts@ == retained_from(
                self.scouts@,
                names.deep_view(),
                false,
                0,
            ),
            scouts_wf(self.scouts@) ==> scouts_wf(r.scouts@),
    {
        if names.len() == 0 {
            return self;
        }
        proof {
            if scouts_wf(self.scouts@) {
                lemma_retained_wf(self.scouts@, names.deep_view(), false, 0);
            }
        }
        ScoutRegistry { scouts: retain_scouts(self.scouts, names, false) }
    }

    /// The composed scout list, in composition order.
    pub fn into_scouts(self) -> (r: Vec<Scout>)
        ensures
            r == self.scouts,
    {
        self.scouts
    }
}

impl Default for ScoutRegistry {
    /// An empty registry.
    fn default() -> (r: ScoutRegistry)
        ensures
            r.scouts@.len() == 0,
    {
        ScoutRegistry::new()
    }
}

fn retain_scouts(scouts: Vec<Scout>, names: &Vec<String>, keep_listed: bool) -> (r: Vec<Scout>)
    ensures
        r@ == retained_from(scouts@, names.deep_view(), keep_listed, 0),
{
    let ghost orig = scouts@;
    let mut rest = scouts;
    let mut out: Vec<Scout> = Vec::new();
    proof {
        assert(orig.skip(0) =~= orig);
        assert(out@ + retained_from(orig, names.deep_view(), keep_listed, 0) =~= retained_from(
            orig,
            names.deep_view(),
            keep_listed,
            0,
        ));
    }
    while rest.len() > 0
        invariant
            rest@.len() <= orig.len(),
            rest@ == orig.skip(orig.len() - rest@.len()),
            out@ + retained_from(orig, names.deep_view(), keep_listed, orig.len() - rest@.len())
                == retained_from(orig, names.deep_view(), keep_listed, 0),
        decreases rest@.len(),
    {
        let ghost si = orig.len() - rest@.len();
        let ghost out_pre = out@;
        let s = rest.remove(0);
        proof {
            assert(rest@ =~= orig.skip(si + 1));
            assert(s == orig[si]);
        }
        let keep = name_listed_exec(s.name.as_str(), names);
        if keep == keep_listed {
            out.push(s);
            proof {
                assert(out@ =~= out_pre.push(orig[si]));
                assert(out_pre.push(orig[si]) + retained_from(
                    orig,
                    names.deep_view(),
                    keep_listed,
                    si + 1,
                ) =~= out_pre + (seq![orig[si]] + retained_from(
                    orig,
                    names.deep_view(),
                    keep_listed,
                    si + 1,
                )));
            }
        }
    }
    proof {
        assert(retained_from(orig, names.deep_view(), keep_listed, orig.len() as int) =~= Seq::<
            Scout,
        >::empty());
        assert(out@ + Seq::<Scout>::empty() =~= out@);
    }
    out
}

} // verus!
