//! Strings in the order `String` sorts them (by code point, which is the
//! order of their UTF-8 bytes), and sorted lists of distinct strings.

use crate::manifest::texts;
use crate::text::owned;
use vstd::prelude::*;

verus! {

/// `a < b` in lexicographic code-point order.
pub open spec fn lex_lt(a: Seq<char>, b: Seq<char>) -> bool
    decreases a.len(),
{
    if b.len() == 0 {
        false
    } else if a.len() == 0 {
        true
    } else if a[0] < b[0] {
        true
    } else if a[0] == b[0] {
        lex_lt(a.drop_first(), b.drop_first())
    } else {
        false
    }
}

/// No string is below itself.
pub proof fn lemma_lex_irreflexive(a: Seq<char>)
    ensures
        !lex_lt(a, a),
    decreases a.len(),
{
    if a.len() > 0 {
        lemma_lex_irreflexive(a.drop_first());
    }
}

/// The order is transitive.
pub proof fn lemma_lex_transitive(a: Seq<char>, b: Seq<char>, c: Seq<char>)
    requires
        lex_lt(a, b),
        lex_lt(b, c),
    ensures
        lex_lt(a, c),
    decreases a.len(),
{
    if a.len() > 0 && a[0] == b[0] && b[0] == c[0] {
        lemma_lex_transitive(a.drop_first(), b.drop_first(), c.drop_first());
    }
}

/// Two distinct strings are ordered one way, and only one.
pub proof fn lemma_lex_total(a: Seq<char>, b: Seq<char>)
    ensures
        a != b ==> lex_lt(a, b) || lex_lt(b, a),
        !(lex_lt(a, b) && lex_lt(b, a)),
    decreases a.len(),
{
    if a.len() > 0 && b.len() > 0 && a[0] == b[0] {
        lemma_lex_total(a.drop_first(), b.drop_first());
        if a.drop_first() == b.drop_first() {
            assert(a =~= seq![a[0]] + a.drop_first());
            assert(b =~= seq![b[0]] + b.drop_first());
        }
    } else if a.len() == 0 && b.len() == 0 {
        assert(a =~= b);
    }
}

/// Every element is below every later one.
pub open spec fn strictly_sorted(s: Seq<Seq<char>>) -> bool {
    forall|i: int, j: int| 0 <= i < j < s.len() ==> lex_lt(#[trigger] s[i], #[trigger] s[j])
}

/// Two sorted lists of distinct strings with the same elements are equal.
pub proof fn lemma_sorted_unique(a: Seq<Seq<char>>, b: Seq<Seq<char>>)
    requires
        strictly_sorted(a),
        strictly_sorted(b),
        a.to_set() == b.to_set(),
    ensures
        a == b,
    decreases a.len(),
{
    if a.len() == 0 {
        if b.len() > 0 {
            assert(b.to_set().contains(b[0]));
        }
        assert(a =~= b);
    } else {
        assert(a.to_set().contains(a[0]));
        assert(b.to_set().contains(a[0]));
        assert(a.to_set().contains(b[0]) == b.to_set().contains(b[0]));
        assert(b.to_set().contains(b[0]));
        let k = choose|k: int| 0 <= k < a.len() && a[k] == b[0];
        let m = choose|m: int| 0 <= m < b.len() && b[m] == a[0];
        lemma_lex_irreflexive(a[0]);
        if k > 0 {
            assert(lex_lt(a[0], a[k]));
            if m > 0 {
                assert(lex_lt(b[0], b[m]));
                lemma_lex_total(a[0], b[0]);
            }
        }
        assert(a[0] == b[0]);
        let a1 = a.drop_first();
        let b1 = b.drop_first();
        assert forall|x: Seq<char>| a1.to_set().contains(x) implies b1.to_set().contains(x) by {
            let i = choose|i: int| 0 <= i < a1.len() && a1[i] == x;
            assert(a[i + 1] == x);
            assert(b.to_set().contains(x));
            let j = choose|j: int| 0 <= j < b.len() && b[j] == x;
            if j == 0 {
                assert(lex_lt(a[0], a[i + 1]));
            }
            assert(b1[j - 1] == x);
        }
        assert forall|x: Seq<char>| b1.to_set().contains(x) implies a1.to_set().contains(x) by {
            let j = choose|j: int| 0 <= j < b1.len() && b1[j] == x;
            assert(b[j + 1] == x);
            assert(a.to_set().contains(x));
            let i = choose|i: int| 0 <= i < a.len() && a[i] == x;
            if i == 0 {
                assert(lex_lt(b[0], b[j + 1]));
            }
            assert(a1[i - 1] == x);
        }
        assert(a1.to_set() =~= b1.to_set());
        lemma_sorted_unique(a1, b1);
        assert(a =~= seq![a[0]] + a1);
        assert(b =~= seq![b[0]] + b1);
    }
}

/// `a < b` for strings.
pub fn str_lt(a: &str, b: &str) -> (r: bool)
    ensures
        r == lex_lt(a@, b@),
{
    let n = a.unicode_len();
    let m = b.unicode_len();
    let mut i: usize = 0;
    assert(a@.skip(0) =~= a@);
    assert(b@.skip(0) =~= b@);
    while i < n && i < m
        invariant
            n == a@.len(),
            m == b@.len(),
            i <= n,
            i <= m,
            lex_lt(a@, b@) == lex_lt(a@.skip(i as int), b@.skip(i as int)),
        decreases n - i,
    {
        let x = a.get_char(i);
        let y = b.get_char(i);
        proof {
            assert(a@.skip(i as int)[0] == x);
            assert(b@.skip(i as int)[0] == y);
            assert(a@.skip(i as int).drop_first() =~= a@.skip(i + 1));
            assert(b@.skip(i as int).drop_first() =~= b@.skip(i + 1));
        }
        if x < y {
            return true;
        }
        if x != y {
            return false;
        }
        i = i + 1;
    }
    i < m
}

/// Inserts `s` into a sorted list of distinct strings, unless it is there.
pub fn insert_sorted(v: &mut Vec<String>, s: &str)
    requires
        strictly_sorted(texts(old(v)@)),
    ensures
        strictly_sorted(texts(final(v)@)),
        texts(final(v)@).to_set() == texts(old(v)@).to_set().insert(s@),
{
    let ghost t = texts(v@);
    let mut p: usize = 0;
    while p < v.len() && str_lt(v[p].as_str(), s)
        invariant
            p <= v@.len(),
            t == texts(v@),
            strictly_sorted(t),
            forall|q: int| 0 <= q < p ==> lex_lt(#[trigger] t[q], s@),
        decreases v@.len() - p,
    {
        p = p + 1;
    }
    if p < v.len() {
        proof {
            lemma_lex_total(t[p as int], s@);
        }
        if crate::text::str_eq(v[p].as_str(), s) {
            assert(t.to_set() =~= t.to_set().insert(s@)) by {
                assert(t[p as int] == s@);
            }
            return;
        }
        assert(lex_lt(s@, t[p as int]));
    }
    v.insert(p, owned(s));
    proof {
        let u = texts(v@);
        assert(u =~= t.insert(p as int, s@));
        assert forall|i: int, j: int| 0 <= i < j < u.len() implies lex_lt(
            #[trigger] u[i],
            #[trigger] u[j],
        ) by {
            if j < p {
            } else if j == p {
            } else if i < p {
                assert(lex_lt(t[i], s@));
                assert(lex_lt(s@, t[p as int]));
                lemma_lex_transitive(t[i], s@, t[p as int]);
                if j - 1 > p {
                    lemma_lex_transitive(t[i], t[p as int], t[j - 1]);
                }
            } else if i == p {
                if j - 1 > p {
                    lemma_lex_transitive(s@, t[p as int], t[j - 1]);
                }
            } else {
            }
        }
        assert forall|x: Seq<char>| u.to_set().contains(x) == t.to_set().insert(s@).contains(x) by {
            if x == s@ {
                assert(u[p as int] == x);
            }
            if t.contains(x) {
                let i = choose|i: int| 0 <= i < t.len() && t[i] == x;
                if i < p {
                    assert(u[i] == x);
                } else {
                    assert(u[i + 1] == x);
                }
            }
            if u.contains(x) {
                let i = choose|i: int| 0 <= i < u.len() && u[i] == x;
                if i < p {
                    assert(t[i] == x);
                } else if i > p {
                    assert(t[i - 1] == x);
                }
            }
        }
        assert(u.to_set() =~= t.to_set().insert(s@));
    }
}

} // verus!
