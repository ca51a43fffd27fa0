//! Lexicographic order of texts and stable ordering of row indices.
use crate::text::chars_of;
use vstd::prelude::*;

verus! {

/// Whether `a` sorts strictly before `b`: by the first differing character,
/// a proper prefix before the longer text.
pub open spec fn lex_lt(a: Seq<char>, b: Seq<char>) -> bool
    decreases a.len(),
{
    if b.len() == 0 {
        false
    } else if a.len() == 0 {
        true
    } else if a[0] == b[0] {
        lex_lt(a.skip(1), b.skip(1))
    } else {
        (a[0] as int) < (b[0] as int)
    }
}

/// No text sorts before itself, and never both ways round.
pub proof fn lex_lt_asymmetric(a: Seq<char>, b: Seq<char>)
    ensures
        lex_lt(a, b) ==> !lex_lt(b, a),
        !lex_lt(a, a),
    decreases a.len(),
{
    if a.len() > 0 {
        lex_lt_asymmetric(a.skip(1), b.skip(1));
    }
}

/// Of two different texts one sorts before the other.
pub proof fn lex_lt_total(a: Seq<char>, b: Seq<char>)
    ensures
        a == b || lex_lt(a, b) || lex_lt(b, a),
    decreases a.len(),
{
    if a.len() > 0 && b.len() > 0 && a[0] == b[0] {
        lex_lt_total(a.skip(1), b.skip(1));
        if a.skip(1) == b.skip(1) {
            assert(a =~= seq![a[0]] + a.skip(1));
            assert(b =~= seq![b[0]] + b.skip(1));
        }
    } else if a.len() == 0 && b.len() == 0 {
        assert(a =~= b);
    }
}

/// The order of texts is transitive.
pub proof fn lex_lt_transitive(a: Seq<char>, b: Seq<char>, c: Seq<char>)
    requires
        lex_lt(a, b),
        lex_lt(b, c),
    ensures
        lex_lt(a, c),
    decreases a.len(),
{
    if a.len() > 0 && b.len() > 0 && c.len() > 0 && a[0] == b[0] && b[0] == c[0] {
        lex_lt_transitive(a.skip(1), b.skip(1), c.skip(1));
    }
}

/// If `a` sorts before `c`, every `b` sorts after `a` or before `c`.
pub proof fn lex_lt_splits(a: Seq<char>, b: Seq<char>, c: Seq<char>)
    requires
        lex_lt(a, c),
    ensures
        lex_lt(a, b) || lex_lt(b, c),
{
    lex_lt_total(a, b);
    if !lex_lt(a, b) && a != b {
        lex_lt_transitive(b, a, c);
    }
}

/// Whether `a` sorts strictly before `b`.
pub fn text_before(a: &str, b: &str) -> (r: bool)
    ensures
        r == lex_lt(a@, b@),
{
    let x = chars_of(a);
    let y = chars_of(b);
    let mut i: usize = 0;
    assert(a@.skip(0) =~= a@);
    assert(b@.skip(0) =~= b@);
    while i < x.len() && i < y.len()
        invariant
            x@ == a@,
            y@ == b@,
            i <= x.len(),
            i <= y.len(),
            lex_lt(a@, b@) == lex_lt(a@.skip(i as int), b@.skip(i as int)),
        decreases x.len() - i,
    {
        if x[i] != y[i] {
            return x[i] < y[i];
        }
        assert(a@.skip(i as int).skip(1) =~= a@.skip(i + 1));
        assert(b@.skip(i as int).skip(1) =~= b@.skip(i + 1));
        i = i + 1;
    }
    i < y.len()
}

/// `x` is listed before `y`: it sorts before it, or neither sorts before the
/// other and it has the smaller index.
pub open spec fn listed_before(before: spec_fn(int, int) -> bool, x: int, y: int) -> bool {
    before(x, y) || (!before(y, x) && x < y)
}

/// `r` lists each of the indices `0..n` once, sorted by `before`, with ties
/// in index order.
pub open spec fn stably_sorted(r: Seq<usize>, n: int, before: spec_fn(int, int) -> bool) -> bool {
    &&& r.len() == n
    &&& r.no_duplicates()
    &&& forall|i: int| 0 <= i < r.len() ==> #[trigger] r[i] < n
    &&& forall|x: usize| x < n ==> #[trigger] r.contains(x)
    &&& forall|i: int, j: int|
        0 <= i < j < r.len() ==> listed_before(before, #[trigger] r[i] as int, #[trigger] r[j] as int)
}

/// `before` orders the indices `0..n` up to ties: never both ways round, and
/// if one sorts before another, every third sorts after the first or before
/// the second.
pub open spec fn orders(n: int, before: spec_fn(int, int) -> bool) -> bool {
    &&& forall|x: int, y: int|
        0 <= x < n && 0 <= y < n && #[trigger] before(x, y) ==> !before(y, x)
    &&& forall|x: int, y: int, z: int|
        0 <= x < n && 0 <= y < n && 0 <= z < n && #[trigger] before(x, z) ==> #[trigger] before(x, y)
            || before(y, z)
}

/// The indices `0..n` stably sorted by `less`.
pub(crate) fn stable_order<F: Fn(usize, usize) -> bool>(
    n: usize,
    less: F,
    Ghost(before): Ghost<spec_fn(int, int) -> bool>,
) -> (r: Vec<usize>)
    requires
        forall|a: usize, b: usize| a < n && b < n ==> #[trigger] less.requires((a, b)),
        forall|a: usize, b: usize, c: bool| #[trigger]
            less.ensures((a, b), c) && a < n && b < n ==> c == before(a as int, b as int),
        orders(n as int, before),
    ensures
        stably_sorted(r@, n as int, before),
{
    let mut r: Vec<usize> = Vec::new();
    let mut i: usize = 0;
    while i < n
        invariant
            i <= n,
            forall|a: usize, b: usize| a < n && b < n ==> #[trigger] less.requires((a, b)),
            forall|a: usize, b: usize, c: bool| #[trigger]
                less.ensures((a, b), c) && a < n && b < n ==> c == before(a as int, b as int),
            orders(n as int, before),
            stably_sorted(r@, i as int, before),
        decreases n - i,
    {
        let mut p: usize = r.len();
        while p > 0 && less(i, r[p - 1])
            invariant
                p <= r.len(),
                i < n,
                stably_sorted(r@, i as int, before),
                forall|a: usize, b: usize| a < n && b < n ==> #[trigger] less.requires((a, b)),
                forall|a: usize, b: usize, c: bool| #[trigger]
                    less.ensures((a, b), c) && a < n && b < n ==> c == before(a as int, b as int),
                forall|q: int| p <= q < r.len() ==> before(i as int, #[trigger] r@[q] as int),
            ensures
                p <= r.len(),
                p > 0 ==> !before(i as int, r@[p - 1] as int),
                forall|q: int| p <= q < r.len() ==> before(i as int, #[trigger] r@[q] as int),
            decreases p,
        {
            p = p - 1;
        }
        let ghost old_r = r@;
        proof {
            assert forall|q: int| 0 <= q < p implies !before(i as int, #[trigger] old_r[q] as int) by {
                if q < p - 1 {
                    let last = old_r[p - 1] as int;
                    assert(listed_before(before, old_r[q] as int, last));
                    assert(before(i as int, old_r[q] as int) ==> before(i as int, last) || before(
                        last,
                        old_r[q] as int,
                    ));
                }
            }
        }
        r.insert(p, i);
        proof {
            assert forall|x: usize| x < i + 1 implies #[trigger] r@.contains(x) by {
                if x == i {
                    assert(r@[p as int] == x);
                } else {
                    assert(old_r.contains(x));
                    let k = old_r.index_of(x);
                    if k < p {
                        assert(r@[k] == x);
                    } else {
                        assert(r@[k + 1] == x);
                    }
                }
            }
        }
        i = i + 1;
    }
    r
}

/// A stable order is the only one: two lists that are stably sorted by the
/// same relation are equal.
pub proof fn stable_orders_agree(
    a: Seq<usize>,
    b: Seq<usize>,
    n: int,
    before: spec_fn(int, int) -> bool,
)
    requires
        orders(n, before),
        stably_sorted(a, n, before),
        stably_sorted(b, n, before),
    ensures
        a == b,
{
    lemma_agree_up_to(a, b, n, before, n);
    assert(a =~= b);
}

proof fn lemma_agree_up_to(
    a: Seq<usize>,
    b: Seq<usize>,
    n: int,
    before: spec_fn(int, int) -> bool,
    k: int,
)
    requires
        orders(n, before),
        stably_sorted(a, n, before),
        stably_sorted(b, n, before),
        0 <= k <= n,
    ensures
        forall|i: int| 0 <= i < k ==> a[i] == b[i],
    decreases k,
{
    if k > 0 {
        let at = k - 1;
        lemma_agree_up_to(a, b, n, before, at);
        assert(b.contains(a[at]));
        assert(a.contains(b[at]));
        let p = b.index_of(a[at]);
        let q = a.index_of(b[at]);
        if p < at {
            assert(a[p] == b[p]);
            assert(a[p] == a[at]);
        } else if p > at {
            if q < at {
                assert(a[q] == b[q]);
                assert(b[q] == b[at]);
            }
            assert(listed_before(before, a[at] as int, a[q] as int));
            assert(listed_before(before, b[at] as int, b[p] as int));
        }
    }
}

} // verus!
