//! Reading the name-value pairs of a `Cookie` header.

use crate::view::auth::pairs_view;
use vstd::prelude::*;
use vstd::string::*;

verus! {

/// How far into `s` the first `c` stands: its index, or the length of `s`
/// when there is none.
pub open spec fn index_of_or_len(s: Seq<char>, c: char) -> nat
    decreases s.len(),
{
    if s.len() == 0 {
        0
    } else if s[0] == c {
        0
    } else {
        1 + index_of_or_len(s.drop_first(), c)
    }
}

/// A space or a tab.
pub open spec fn is_blank(c: char) -> bool {
    c == ' ' || c == '\t'
}

/// `s` without its leading blanks.
pub open spec fn trim_start(s: Seq<char>) -> Seq<char>
    decreases s.len(),
{
    if s.len() > 0 && is_blank(s[0]) {
        trim_start(s.drop_first())
    } else {
        s
    }
}

/// `s` without its trailing blanks.
pub open spec fn trim_end(s: Seq<char>) -> Seq<char>
    decreases s.len(),
{
    if s.len() > 0 && is_blank(s.last()) {
        trim_end(s.drop_last())
    } else {
        s
    }
}

/// The cookie that one `;`-separated piece of the header sets: once the
/// piece is trimmed of blanks, the name before its first `=` and the value
/// after it; `None` for a piece without `=`.
pub open spec fn cookie_of(piece: Seq<char>) -> Option<(Seq<char>, Seq<char>)> {
    let t = trim_end(trim_start(piece));
    let k = index_of_or_len(t, '=');
    if k < t.len() {
        Some((t.take(k as int), t.skip(k + 1int)))
    } else {
        None
    }
}

/// The cookies of a `Cookie` header, in order: those of its
/// `;`-separated pieces that set one.
pub open spec fn cookie_pairs(s: Seq<char>) -> Seq<(Seq<char>, Seq<char>)>
    decreases s.len(),
{
    let k = index_of_or_len(s, ';');
    let rest = if k < s.len() {
        cookie_pairs(s.skip(k + 1int))
    } else {
        seq![]
    };
    match cookie_of(s.take(k as int)) {
        Some(p) => seq![p] + rest,
        None => rest,
    }
}

proof fn lemma_index_of(t: Seq<char>, c: char, m: int)
    requires
        0 <= m <= t.len(),
        forall|i: int| 0 <= i < m ==> t[i] != c,
        m == t.len() || t[m] == c,
    ensures
        index_of_or_len(t, c) == m,
    decreases m,
{
    if m > 0 {
        lemma_index_of(t.drop_first(), c, m - 1);
    }
}

proof fn lemma_trim_start(t: Seq<char>, m: int)
    requires
        0 <= m <= t.len(),
        forall|i: int| 0 <= i < m ==> is_blank(#[trigger] t[i]),
        m == t.len() || !is_blank(t[m]),
    ensures
        trim_start(t) == t.skip(m),
    decreases m,
{
    if m == 0 {
        assert(t.skip(0) =~= t);
    } else {
        assert(is_blank(t[0]));
        lemma_trim_start(t.drop_first(), m - 1);
        assert(t.drop_first().skip(m - 1) =~= t.skip(m));
    }
}

proof fn lemma_trim_end(t: Seq<char>, m: int)
    requires
        0 <= m <= t.len(),
        forall|i: int| m <= i < t.len() ==> is_blank(#[trigger] t[i]),
        m == 0 || !is_blank(t[m - 1]),
    ensures
        trim_end(t) == t.take(m),
    decreases t.len() - m,
{
    if m == t.len() {
        assert(t.take(m) =~= t);
    } else {
        assert(is_blank(t[t.len() - 1]));
        lemma_trim_end(t.drop_last(), m);
        assert(t.drop_last().take(m) =~= t.take(m));
    }
}

/// The index of the first `c` in `s` from `from` on, or `to` when there is
/// none before `to`.
fn find_char(s: &str, from: usize, to: usize, c: char) -> (r: usize)
    requires
        from <= to <= s@.len(),
    ensures
        from <= r <= to,
        r - from == index_of_or_len(s@.subrange(from as int, to as int), c),
{
    let mut j = from;
    while j < to && s.get_char(j) != c
        invariant
            from <= j <= to,
            to <= s@.len(),
            forall|i: int| from <= i < j ==> s@[i] != c,
        decreases to - j,
    {
        j = j + 1;
    }
    proof {
        let t = s@.subrange(from as int, to as int);
        lemma_index_of(t, c, j - from);
    }
    j
}

/// The bounds of `s`'s characters from `from` to `to` once trimmed of
/// blanks.
fn trim_range(s: &str, from: usize, to: usize) -> (r: (usize, usize))
    requires
        from <= to <= s@.len(),
    ensures
        from <= r.0 <= r.1 <= to,
        s@.subrange(r.0 as int, r.1 as int) == trim_end(trim_start(s@.subrange(from as int, to as int))),
{
    let ghost t = s@.subrange(from as int, to as int);
    let mut a = from;
    while a < to && (s.get_char(a) == ' ' || s.get_char(a) == '\t')
        invariant
            from <= a <= to,
            to <= s@.len(),
            t == s@.subrange(from as int, to as int),
            forall|i: int| from <= i < a ==> is_blank(#[trigger] s@[i]),
        decreases to - a,
    {
        a = a + 1;
    }
    proof {
        assert forall|i: int| 0 <= i < a - from implies is_blank(#[trigger] t[i]) by {
            assert(t[i] == s@[from + i]);
        }
        lemma_trim_start(t, a - from);
        assert(t.skip(a - from) =~= s@.subrange(a as int, to as int));
    }
    let mut b = to;
    while b > a && (s.get_char(b - 1) == ' ' || s.get_char(b - 1) == '\t')
        invariant
            a <= b <= to,
            to <= s@.len(),
            forall|i: int| b <= i < to ==> is_blank(#[trigger] s@[i]),
        decreases b - a,
    {
        b = b - 1;
    }
    proof {
        let u = s@.subrange(a as int, to as int);
        assert forall|i: int| b - a <= i < u.len() implies is_blank(#[trigger] u[i]) by {
            assert(u[i] == s@[a + i]);
        }
        lemma_trim_end(u, b - a);
        assert(u.take(b - a) =~= s@.subrange(a as int, b as int));
    }
    (a, b)
}

/// The cookies that a `Cookie` header sets; see [`cookie_pairs`].
pub fn parse_cookie_header(header: &str) -> (r: Vec<(String, String)>)
    ensures
        pairs_view(r@) == cookie_pairs(header@),
{
    let n = header.unicode_len();
    let ghost s = header@;
    let mut r: Vec<(String, String)> = Vec::new();
    let mut pos: usize = 0;
    let mut done = false;
    proof {
        assert(s.skip(0) =~= s);
        assert(pairs_view(r@) =~= Seq::<(Seq<char>, Seq<char>)>::empty());
        assert(pairs_view(r@) + cookie_pairs(s.skip(0)) =~= cookie_pairs(s));
    }
    while !done
        invariant
            n == s.len(),
            s == header@,
            pos <= n,
            done ==> pairs_view(r@) == cookie_pairs(s),
            !done ==> pairs_view(r@) + cookie_pairs(s.skip(pos as int)) == cookie_pairs(s),
        decreases n + 1 - pos - (if done { 1int } else { 0int }),
    {
        let end = find_char(header, pos, n, ';');
        let ghost rem = s.skip(pos as int);
        let ghost k = index_of_or_len(rem, ';');
        proof {
            assert(rem =~= s.subrange(pos as int, n as int));
            assert(k == end - pos);
            assert(rem.take(k as int) =~= s.subrange(pos as int, end as int));
            if end < n {
                assert(rem.skip(k + 1int) =~= s.skip(end + 1));
            }
        }
        let (a, b) = trim_range(header, pos, end);
        let eq = find_char(header, a, b, '=');
        let ghost before = pairs_view(r@);
        let ghost t = s.subrange(a as int, b as int);
        if eq < b {
            let name = String::from_str(header.substring_char(a, eq));
            let value = String::from_str(header.substring_char(eq + 1, b));
            r.push((name, value));
            proof {
                assert(t.take(eq - a) =~= s.subrange(a as int, eq as int));
                assert(t.skip(eq - a + 1) =~= s.subrange(eq + 1, b as int));
                assert(cookie_of(rem.take(k as int)) == Some((t.take(eq - a), t.skip(eq - a + 1))));
                assert(pairs_view(r@) =~= before.push((t.take(eq - a), t.skip(eq - a + 1))));
            }
        } else {
            proof {
                assert(cookie_of(rem.take(k as int)) is None);
            }
        }
        proof {
            let rest = if k < rem.len() {
                cookie_pairs(rem.skip(k + 1int))
            } else {
                seq![]
            };
            assert(cookie_pairs(rem) == match cookie_of(rem.take(k as int)) {
                Some(p) => seq![p] + rest,
                None => rest,
            });
            if eq < b {
                assert(pairs_view(r@) + rest =~= before + cookie_pairs(rem));
            } else {
                assert(pairs_view(r@) + rest =~= before + cookie_pairs(rem));
            }
            if end == n {
                assert(pairs_view(r@) =~= pairs_view(r@) + rest);
            }
        }
        if end == n {
            done = true;
        } else {
            pos = end + 1;
        }
    }
    r
}

} // verus!
