//! A scout: a named bundle of rules bound to one linter and the file types
//! it owns, declared as exact filenames or exact extensions.

use vstd::prelude::*;

use crate::pattern::pattern_matches;
use crate::rule::Rule;
use crate::text::str_eq;
use vstd::string::StrSliceExecFns;

verus! {

/// A named bundle of rules for one linter, with the extensions and exact
/// filenames it applies to, in declaration order.
pub struct Scout {
    pub name: String,
    pub linter: String,
    pub language: String,
    pub extensions: Vec<String>,
    pub rules: Vec<Rule>,
}

/// The final path component: what follows the last `'/'`.
pub open spec fn spec_file_name(p: Seq<char>) -> Seq<char>
    decreases p.len(),
{
    if p.len() == 0 {
        p
    } else if p.last() == '/' {
        Seq::empty()
    } else {
        spec_file_name(p.drop_last()).push(p.last())
    }
}

/// The extension of a filename: what follows the last `'.'`, provided that
/// dot is not the leading character; `None` when there is no such dot.
pub open spec fn spec_extension(f: Seq<char>) -> Option<Seq<char>>
    decreases f.len(),
{
    if f.len() <= 1 {
        Option::None
    } else if f.last() == '.' {
        Option::Some(Seq::empty())
    } else {
        match spec_extension(f.drop_last()) {
            Option::Some(e) => Option::Some(e.push(f.last())),
            Option::None => Option::None,
        }
    }
}

/// Whether a path belongs to a scout that declares `exts`: its filename
/// equals one of them exactly, or its extension does, case-sensitively.
pub open spec fn spec_applies_to(exts: Seq<Seq<char>>, path: Seq<char>) -> bool {
    let f = spec_file_name(path);
    ||| exists|k: int| 0 <= k < exts.len() && exts[k] == f
    ||| match spec_extension(f) {
        Option::Some(e) => exists|k: int| 0 <= k < exts.len() && exts[k] == e,
        Option::None => false,
    }
}

proof fn lemma_file_name_after_slash(p: Seq<char>, k: int)
    requires
        0 <= k < p.len(),
        p[k] == '/',
        forall|j: int| k < j < p.len() ==> p[j] != '/',
    ensures
        spec_file_name(p) =~= p.subrange(k + 1, p.len() as int),
    decreases p.len(),
{
    if k < p.len() - 1 {
        lemma_file_name_after_slash(p.drop_last(), k);
        assert(spec_file_name(p.drop_last()).push(p.last()) =~= p.subrange(k + 1, p.len() as int));
    }
}

proof fn lemma_file_name_no_slash(p: Seq<char>)
    requires
        forall|j: int| 0 <= j < p.len() ==> p[j] != '/',
    ensures
        spec_file_name(p) =~= p,
    decreases p.len(),
{
    if p.len() > 0 {
        lemma_file_name_no_slash(p.drop_last());
        assert(spec_file_name(p.drop_last()).push(p.last()) =~= p);
    }
}

proof fn lemma_extension_after_dot(f: Seq<char>, d: int)
    requires
        1 <= d < f.len(),
        f[d] == '.',
        forall|j: int| d < j < f.len() ==> f[j] != '.',
    ensures
        spec_extension(f) matches Option::Some(e) && e =~= f.subrange(d + 1, f.len() as int),
    decreases f.len(),
{
    if d < f.len() - 1 {
        lemma_extension_after_dot(f.drop_last(), d);
        assert(spec_extension(f.drop_last())->0.push(f.last()) =~= f.subrange(
            d + 1,
            f.len() as int,
        ));
    }
}

proof fn lemma_extension_no_dot(f: Seq<char>)
    requires
        forall|j: int| 1 <= j < f.len() ==> f[j] != '.',
    ensures
        spec_extension(f) is None,
    decreases f.len(),
{
    if f.len() > 1 {
        lemma_extension_no_dot(f.drop_last());
    }
}

/// The filename of `path`: the part after its last `'/'`, the whole path
/// when it has none.
fn file_name_of<'a>(path: &'a str) -> (r: &'a str)
    ensures
        r@ == spec_file_name(path@),
{
    let len = path.unicode_len();
    let mut k: usize = len;
    while k > 0 && path.get_char(k - 1) != '/'
        invariant
            k <= len,
            len == path@.len(),
            forall|j: int| k <= j < len ==> path@[j] != '/',
        decreases k,
    {
        k -= 1;
    }
    proof {
        if k == 0 {
            lemma_file_name_no_slash(path@);
        } else {
            lemma_file_name_after_slash(path@, k - 1);
        }
    }
    path.substring_char(k, len)
}

/// The extension of a filename `f`: the part after its last `'.'`, unless
/// that dot leads the name.
fn extension_of<'a>(f: &'a str) -> (r: Option<&'a str>)
    ensures
        r is Some <==> spec_extension(f@) is Some,
        r is Some ==> r->0@ == spec_extension(f@)->0,
{
    let len = f.unicode_len();
    let mut k: usize = len;
    while k > 1 && f.get_char(k - 1) != '.'
        invariant
            k <= len,
            len == f@.len(),
            forall|j: int| k <= j < len ==> f@[j] != '.',
        decreases k,
    {
        k -= 1;
    }
    if k <= 1 {
        proof {
            lemma_extension_no_dot(f@);
        }
        None
    } else {
        proof {
            lemma_extension_after_dot(f@, k - 1);
        }
        Some(f.substring_char(k, len))
    }
}

impl Scout {
    /// Every rule's compiled patterns belong to the texts stored with them.
    pub open spec fn wf(&self) -> bool {
        forall|i: int| 0 <= i < self.rules@.len() ==> (#[trigger] self.rules@[i]).wf()
    }

    /// Whether this scout owns `path`: the filename or the extension equals
    /// one of the declared strings, compared exactly and case-sensitively.
    pub fn applies_to_file(&self, path: &str) -> (r: bool)
        ensures
            r == spec_applies_to(self.extensions.deep_view(), path@),
    {
        let fname = file_name_of(path);
        let mut i: usize = 0;
        let n = self.extensions.len();
        while i < n
            invariant
                i <= n,
                n == self.extensions@.len(),
                fname@ == spec_file_name(path@),
                forall|k: int| 0 <= k < i ==> self.extensions.deep_view()[k] != fname@,
            decreases n - i,
        {
            proof {
                assert(self.extensions.deep_view()[i as int] == self.extensions@[
                    i as int
                ].deep_view());
            }
            if str_eq(self.extensions[i].as_str(), fname) {
                proof {
                    assert(self.extensions.deep_view()[i as int] == spec_file_name(path@));
                }
                return true;
            }
            i += 1;
        }
        match extension_of(fname) {
            Option::Some(ext) => {
                let mut i: usize = 0;
                while i < n
                    invariant
                        i <= n,
                        n == self.extensions@.len(),
                        forall|k: int| 0 <= k < i ==> self.extensions.deep_view()[k] != ext@,
                        spec_extension(spec_file_name(path@)) matches Option::Some(e) && e == ext@,
                        forall|k: int|
                            0 <= k < n ==> self.extensions.deep_view()[k] != spec_file_name(path@),
                    decreases n - i,
                {
                    proof {
                        assert(self.extensions.deep_view()[i as int] == self.extensions@[
                            i as int
                        ].deep_view());
                    }
                    if str_eq(self.extensions[i].as_str(), ext) {
                        proof {
                            assert(self.extensions.deep_view()[i as int] == ext@);
                        }
                        return true;
                    }
                    i += 1;
                }
                false
            },
            Option::None => false,
        }
    }

    /// The rules whose primary pattern matches `line`, in declaration order.
    pub fn find_matches<'a>(&'a self, line: &str) -> (r: Vec<&'a Rule>)
        requires
            self.wf(),
        ensures
            r@.map_values(|x: &Rule| *x) == self.rules@.filter(
                |ru: Rule| pattern_matches(ru.pattern_str@, line@),
            ),
    {
        let ghost pred = |ru: Rule| pattern_matches(ru.pattern_str@, line@);
        let mut r: Vec<&'a Rule> = Vec::new();
        let n = self.rules.len();
        let mut i: usize = 0;
        proof {
            reveal(Seq::filter);
            assert(self.rules@.take(0).filter(pred) =~= Seq::<Rule>::empty());
            assert(r@.map_values(|x: &Rule| *x) =~= Seq::<Rule>::empty());
        }
        while i < n
            invariant
                i <= n,
                n == self.rules@.len(),
                self.wf(),
                pred == (|ru: Rule| pattern_matches(ru.pattern_str@, line@)),
                r@.map_values(|x: &Rule| *x) == self.rules@.take(i as int).filter(pred),
            decreases n - i,
        {
            let ghost prev = self.rules@.take(i as int);
            let ghost pre_vals = r@.map_values(|x: &Rule| *x);
            let rule = &self.rules[i];
            proof {
                assert(self.rules@.take(i + 1) =~= prev.push(self.rules@[i as int]));
                prev.lemma_filter_push(self.rules@[i as int], pred);
            }
            if rule.is_match(line) {
                proof {
                    assert(pred(self.rules@[i as int]));
                }
                r.push(rule);
                proof {
                    assert(r@.map_values(|x: &Rule| *x) =~= pre_vals.push(self.rules@[i as int]));
                }
            } else {
                proof {
                    assert(!pred(self.rules@[i as int]));
                }
            }
            i += 1;
        }
        proof {
            assert(self.rules@.take(n as int) =~= self.rules@);
        }
        r
    }
}

} // verus!
