//! Character-level string utilities: lexicographic order on character
//! sequences, whitespace classification and trimming.

use vstd::prelude::*;
use vstd::string::StrSliceExecFns;

verus! {

/// The Unicode `White_Space` code points: exactly the characters for which
/// std documents `char::is_whitespace` to return true.
pub open spec fn is_space(c: char) -> bool {
    c == '\u{9}' || c == '\u{a}' || c == '\u{b}' || c == '\u{c}' || c == '\u{d}' || c == ' '
        || c == '\u{85}' || c == '\u{a0}' || c == '\u{1680}' || c == '\u{2000}' || c == '\u{2001}'
        || c == '\u{2002}' || c == '\u{2003}' || c == '\u{2004}' || c == '\u{2005}'
        || c == '\u{2006}' || c == '\u{2007}' || c == '\u{2008}' || c == '\u{2009}'
        || c == '\u{200a}' || c == '\u{2028}' || c == '\u{2029}' || c == '\u{202f}'
        || c == '\u{205f}' || c == '\u{3000}'
}

/// Whether `c` is a whitespace character (the `White_Space` table above).
pub fn space_char(c: char) -> (r: bool)
    ensures
        r == is_space(c),
{
    c == '\u{9}' || c == '\u{a}' || c == '\u{b}' || c == '\u{c}' || c == '\u{d}' || c == ' '
        || c == '\u{85}' || c == '\u{a0}' || c == '\u{1680}' || c == '\u{2000}' || c == '\u{2001}'
        || c == '\u{2002}' || c == '\u{2003}' || c == '\u{2004}' || c == '\u{2005}'
        || c == '\u{2006}' || c == '\u{2007}' || c == '\u{2008}' || c == '\u{2009}'
        || c == '\u{200a}' || c == '\u{2028}' || c == '\u{2029}' || c == '\u{202f}'
        || c == '\u{205f}' || c == '\u{3000}'
}

/// Strict lexicographic order on character sequences, by code point.
pub open spec fn chars_lt(a: Seq<char>, b: Seq<char>) -> bool
    decreases a.len(),
{
    if b.len() == 0 {
        false
    } else if a.len() == 0 {
        true
    } else if a[0] != b[0] {
        (a[0] as int) < (b[0] as int)
    } else {
        chars_lt(a.drop_first(), b.drop_first())
    }
}

/// `chars_lt` never holds in both directions.
pub proof fn lemma_chars_lt_asymmetric(a: Seq<char>, b: Seq<char>)
    ensures
        !(chars_lt(a, b) && chars_lt(b, a)),
    decreases a.len(),
{
    if a.len() > 0 && b.len() > 0 && a[0] == b[0] {
        lemma_chars_lt_asymmetric(a.drop_first(), b.drop_first());
    }
}

/// Two sequences that `chars_lt` orders in neither direction are equal.
pub proof fn lemma_chars_lt_connected(a: Seq<char>, b: Seq<char>)
    requires
        !chars_lt(a, b),
        !chars_lt(b, a),
    ensures
        a =~= b,
    decreases a.len(),
{
    if a.len() > 0 && b.len() > 0 {
        if a[0] == b[0] {
            lemma_chars_lt_connected(a.drop_first(), b.drop_first());
            assert(a =~= seq![a[0]] + a.drop_first());
            assert(b =~= seq![b[0]] + b.drop_first());
        } else {
            assert((a[0] as int) != (b[0] as int));
        }
    }
}

/// `chars_lt` is transitive.
pub proof fn lemma_chars_lt_transitive(a: Seq<char>, b: Seq<char>, c: Seq<char>)
    requires
        chars_lt(a, b),
        chars_lt(b, c),
    ensures
        chars_lt(a, c),
    decreases a.len(),
{
    if a.len() > 0 && b.len() > 0 && c.len() > 0 {
        if a[0] == b[0] && b[0] == c[0] {
            lemma_chars_lt_transitive(a.drop_first(), b.drop_first(), c.drop_first());
        }
    }
}

/// Whether `a` precedes `b` lexicographically, decided character by
/// character from position `i` on; `a` and `b` agree before `i`.
fn str_lt_from(a: &str, b: &str, i: usize) -> (r: bool)
    requires
        i <= a@.len(),
        i <= b@.len(),
    ensures
        r == chars_lt(a@.skip(i as int), b@.skip(i as int)),
    decreases a@.len() - i,
{
    let a_len = a.unicode_len();
    let b_len = b.unicode_len();
    if i == b_len {
        false
    } else if i == a_len {
        true
    } else {
        let ca = a.get_char(i);
        let cb = b.get_char(i);
        if ca != cb {
            ca < cb
        } else {
            let r = str_lt_from(a, b, i + 1);
            proof {
                assert(a@.skip(i as int).drop_first() =~= a@.skip(i + 1));
                assert(b@.skip(i as int).drop_first() =~= b@.skip(i + 1));
            }
            r
        }
    }
}

/// Whether `a` precedes `b` in the lexicographic order on characters.
pub fn str_lt(a: &str, b: &str) -> (r: bool)
    ensures
        r == chars_lt(a@, b@),
{
    let r = str_lt_from(a, b, 0);
    proof {
        assert(a@.skip(0) =~= a@);
        assert(b@.skip(0) =~= b@);
    }
    r
}

/// Whether `a` and `b` hold the same characters.
pub fn str_eq(a: &str, b: &str) -> (r: bool)
    ensures
        r == (a@ == b@),
{
    let a_len = a.unicode_len();
    let b_len = b.unicode_len();
    if a_len != b_len {
        return false;
    }
    let mut i: usize = 0;
    while i < a_len
        invariant
            i <= a_len,
            a_len == a@.len() == b@.len(),
            forall|k: int| 0 <= k < i ==> a@[k] == b@[k],
        decreases a_len - i,
    {
        if a.get_char(i) != b.get_char(i) {
            return false;
        }
        i += 1;
    }
    proof {
        assert(a@ =~= b@);
    }
    true
}

/// A copy of a list of strings, value for value.
pub fn clone_strings(v: &Vec<String>) -> (r: Vec<String>)
    ensures
        r@ == v@,
{
    let mut r: Vec<String> = Vec::new();
    let n = v.len();
    let mut i: usize = 0;
    while i < n
        invariant
            i <= n,
            n == v@.len(),
            r@ =~= v@.take(i as int),
        decreases n - i,
    {
        r.push(v[i].clone());
        proof {
            assert(r@ =~= v@.take(i + 1));
        }
        i += 1;
    }
    proof {
        assert(v@.take(n as int) =~= v@);
    }
    r
}

/// `s` with leading and trailing whitespace removed.
pub open spec fn spec_trim(s: Seq<char>) -> Seq<char>
    decreases s.len(),
{
    if s.len() == 0 {
        s
    } else if is_space(s[0]) {
        spec_trim(s.drop_first())
    } else if is_space(s.last()) {
        spec_trim(s.drop_last())
    } else {
        s
    }
}

proof fn lemma_trim_bounds(s: Seq<char>, a: int, b: int)
    requires
        0 <= a <= b < s.len(),
        forall|k: int| 0 <= k < a ==> is_space(#[trigger] s[k]),
        forall|k: int| b < k < s.len() ==> is_space(#[trigger] s[k]),
        !is_space(s[a]),
        !is_space(s[b]),
    ensures
        spec_trim(s) =~= s.subrange(a, b + 1),
    decreases s.len(),
{
    if is_space(s[0]) {
        lemma_trim_bounds(s.drop_first(), a - 1, b - 1);
    } else if is_space(s.last()) {
        lemma_trim_bounds(s.drop_last(), a, b);
    }
}

proof fn lemma_trim_all_space(s: Seq<char>)
    requires
        forall|k: int| 0 <= k < s.len() ==> is_space(#[trigger] s[k]),
    ensures
        spec_trim(s).len() == 0,
    decreases s.len(),
{
    if s.len() > 0 {
        lemma_trim_all_space(s.drop_first());
    }
}

/// `s` without leading or trailing whitespace, as `str::trim` strips it.
pub fn trim_str<'a>(s: &'a str) -> (r: &'a str)
    ensures
        r@ == spec_trim(s@),
{
    let len = s.unicode_len();
    let mut a: usize = 0;
    while a < len && space_char(s.get_char(a))
        invariant
            a <= len,
            len == s@.len(),
            forall|k: int| 0 <= k < a ==> is_space(#[trigger] s@[k]),
        decreases len - a,
    {
        a += 1;
    }
    if a == len {
        proof {
            lemma_trim_all_space(s@);
        }
        let r = s.substring_char(0, 0);
        proof {
            assert(r@ =~= spec_trim(s@));
        }
        return r;
    }
    let mut b: usize = len - 1;
    while space_char(s.get_char(b))
        invariant
            a <= b < len,
            len == s@.len(),
            !is_space(s@[a as int]),
            forall|k: int| b < k < len ==> is_space(#[trigger] s@[k]),
        decreases b,
    {
        b -= 1;
    }
    proof {
        lemma_trim_bounds(s@, a as int, b as int);
    }
    s.substring_char(a, b + 1)
}

/// `t` without one trailing carriage return, if it carries one.
pub open spec fn chop_cr(t: Seq<char>) -> Seq<char> {
    if t.len() > 0 && t.last() == '\r' {
        t.drop_last()
    } else {
        t
    }
}

/// The lines of `s`, accumulated left to right with `cur` the line read so
/// far: lines end at `'\n'` or `"\r\n"`, and a final line ending yields no
/// trailing empty line — the splitting `str::lines` documents.
pub open spec fn lines_rec(s: Seq<char>, cur: Seq<char>) -> Seq<Seq<char>>
    decreases s.len(),
{
    if s.len() == 0 {
        if cur.len() == 0 {
            seq![]
        } else {
            seq![cur]
        }
    } else if s[0] == '\n' {
        seq![chop_cr(cur)] + lines_rec(s.drop_first(), Seq::empty())
    } else {
        lines_rec(s.drop_first(), cur.push(s[0]))
    }
}

/// The lines of `s`.
pub open spec fn spec_lines(s: Seq<char>) -> Seq<Seq<char>> {
    lines_rec(s, Seq::empty())
}

/// Splits `s` into lines at `'\n'` and `"\r\n"`, no trailing empty line.
pub fn split_lines(s: &str) -> (r: Vec<String>)
    ensures
        r.deep_view() == spec_lines(s@),
{
    let len = s.unicode_len();
    let mut r: Vec<String> = Vec::new();
    let mut start: usize = 0;
    let mut i: usize = 0;
    proof {
        assert(s@.skip(0) =~= s@);
        assert(s@.subrange(0, 0) =~= Seq::<char>::empty());
    }
    while i < len
        invariant
            start <= i <= len,
            len == s@.len(),
            spec_lines(s@) == r.deep_view() + lines_rec(
                s@.skip(i as int),
                s@.subrange(start as int, i as int),
            ),
        decreases len - i,
    {
        let ghost cur = s@.subrange(start as int, i as int);
        proof {
            assert(s@.skip(i as int).drop_first() =~= s@.skip(i + 1));
        }
        let c = s.get_char(i);
        if c == '\n' {
            let end: usize = if i > start && s.get_char(i - 1) == '\r' {
                i - 1
            } else {
                i
            };
            proof {
                assert(chop_cr(cur) =~= s@.subrange(start as int, end as int));
            }
            let line = s.substring_char(start, end);
            r.push(line.to_owned());
            start = i + 1;
            proof {
                assert(s@.subrange(start as int, start as int) =~= Seq::<char>::empty());
            }
        } else {
            proof {
                assert(cur.push(s@[i as int]) =~= s@.subrange(start as int, i + 1));
            }
        }
        i += 1;
    }
    if start < len {
        let line = s.substring_char(start, len);
        r.push(line.to_owned());
    }
    r
}

/// The character of one decimal digit.
pub open spec fn digit_char(d: int) -> char {
    if d == 0 {
        '0'
    } else if d == 1 {
        '1'
    } else if d == 2 {
        '2'
    } else if d == 3 {
        '3'
    } else if d == 4 {
        '4'
    } else if d == 5 {
        '5'
    } else if d == 6 {
        '6'
    } else if d == 7 {
        '7'
    } else if d == 8 {
        '8'
    } else {
        '9'
    }
}

/// The decimal digits of `n`, most significant first, no leading zeros.
pub open spec fn dec_digits(n: int) -> Seq<char>
    decreases n,
{
    if n < 10 {
        seq![digit_char(n)]
    } else {
        dec_digits(n / 10).push(digit_char(n % 10))
    }
}

fn digit_str(d: usize) -> (r: &'static str)
    requires
        d < 10,
    ensures
        r@ == seq![digit_char(d as int)],
{
    match d {
        0 => {
            proof {
                reveal_strlit("0");
            }
            let r = "0";
            proof {
                assert(r@ =~= seq![digit_char(0)]);
            }
            r
        },
        1 => {
            proof {
                reveal_strlit("1");
            }
            let r = "1";
            proof {
                assert(r@ =~= seq![digit_char(1)]);
            }
            r
        },
        2 => {
            proof {
                reveal_strlit("2");
            }
            let r = "2";
            proof {
                assert(r@ =~= seq![digit_char(2)]);
            }
            r
        },
        3 => {
            proof {
                reveal_strlit("3");
            }
            let r = "3";
            proof {
                assert(r@ =~= seq![digit_char(3)]);
            }
            r
        },
        4 => {
            proof {
                reveal_strlit("4");
            }
            let r = "4";
            proof {
                assert(r@ =~= seq![digit_char(4)]);
            }
            r
        },
        5 => {
            proof {
                reveal_strlit("5");
            }
            let r = "5";
            proof {
                assert(r@ =~= seq![digit_char(5)]);
            }
            r
        },
        6 => {
            proof {
                reveal_strlit("6");
            }
            let r = "6";
            proof {
                assert(r@ =~= seq![digit_char(6)]);
            }
            r
        },
        7 => {
            proof {
                reveal_strlit("7");
            }
            let r = "7";
            proof {
                assert(r@ =~= seq![digit_char(7)]);
            }
            r
        },
        8 => {
            proof {
                reveal_strlit("8");
            }
            let r = "8";
            proof {
                assert(r@ =~= seq![digit_char(8)]);
            }
            r
        },
        _ => {
            proof {
                reveal_strlit("9");
            }
            let r = "9";
            proof {
                assert(r@ =~= seq![digit_char(9)]);
            }
            r
        },
    }
}

/// `n` rendered in decimal.
pub fn usize_to_string(n: usize) -> (r: String)
    ensures
        r@ == dec_digits(n as int),
    decreases n,
{
    if n < 10 {
        digit_str(n).to_owned()
    } else {
        let mut s = usize_to_string(n / 10);
        s.append(digit_str(n % 10));
        proof {
            assert(s@ =~= dec_digits((n / 10) as int).push(digit_char((n % 10) as int)));
        }
        s
    }
}

/// The token separators of a suppressed-identifier list.
pub open spec fn is_sep(c: char) -> bool {
    c == ',' || c == ' '
}

/// The token that a finished piece contributes: its trimmed text, or nothing
/// when only whitespace is left.
pub open spec fn emit_token(cur: Seq<char>) -> Seq<Seq<char>> {
    if spec_trim(cur).len() == 0 {
        seq![]
    } else {
        seq![spec_trim(cur)]
    }
}

/// The tokens of `s`, accumulated left to right with `cur` the piece read so
/// far: pieces split at separators, each trimmed, empties dropped, order and
/// duplicates kept.
pub open spec fn tokens_rec(s: Seq<char>, cur: Seq<char>) -> Seq<Seq<char>>
    decreases s.len(),
{
    if s.len() == 0 {
        emit_token(cur)
    } else if is_sep(s[0]) {
        emit_token(cur) + tokens_rec(s.drop_first(), Seq::empty())
    } else {
        tokens_rec(s.drop_first(), cur.push(s[0]))
    }
}

/// The tokens of `s`: split at commas and spaces, trimmed, empties dropped.
pub open spec fn spec_tokens(s: Seq<char>) -> Seq<Seq<char>> {
    tokens_rec(s, Seq::empty())
}

/// Splits `s` at commas and spaces, trims each piece, and drops the pieces
/// that are left empty, keeping order and duplicates.
pub fn split_tokens(s: &str) -> (r: Vec<String>)
    ensures
        r.deep_view() == spec_tokens(s@),
{
    let len = s.unicode_len();
    let mut r: Vec<String> = Vec::new();
    let mut start: usize = 0;
    let mut i: usize = 0;
    proof {
        assert(s@.skip(0) =~= s@);
        assert(s@.subrange(0, 0) =~= Seq::<char>::empty());
    }
    while i < len
        invariant
            start <= i <= len,
            len == s@.len(),
            spec_tokens(s@) == r.deep_view() + tokens_rec(
                s@.skip(i as int),
                s@.subrange(start as int, i as int),
            ),
        decreases len - i,
    {
        let ghost cur = s@.subrange(start as int, i as int);
        proof {
            assert(s@.skip(i as int).drop_first() =~= s@.skip(i + 1));
        }
        let c = s.get_char(i);
        if c == ',' || c == ' ' {
            let piece = s.substring_char(start, i);
            let token = trim_str(piece);
            if !token.is_empty() {
                r.push(token.to_owned());
            }
            start = i + 1;
            proof {
                assert(s@.subrange(start as int, start as int) =~= Seq::<char>::empty());
            }
        } else {
            proof {
                assert(cur.push(s@[i as int]) =~= s@.subrange(start as int, i + 1));
            }
        }
        i += 1;
    }
    let piece = s.substring_char(start, len);
    let token = trim_str(piece);
    if !token.is_empty() {
        r.push(token.to_owned());
    }
    r
}

} // verus!
