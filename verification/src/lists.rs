//! Lists of texts: membership, lookup, and sorted distinct keys.
use crate::order::text_before;
use crate::text::same;
use vstd::prelude::*;

verus! {

/// `keys` lists the texts of `ids`, each once, in ascending order.
pub open spec fn sorted_set(keys: Seq<Seq<char>>, ids: Seq<Seq<char>>) -> bool {
    &&& forall|i: int, j: int|
        0 <= i < j < keys.len() ==> crate::order::lex_lt(#[trigger] keys[i], #[trigger] keys[j])
    &&& forall|x: Seq<char>| #[trigger] keys.contains(x) <==> ids.contains(x)
}

/// The sorted distinct keys are the only ones.
pub proof fn sorted_sets_agree(a: Seq<Seq<char>>, b: Seq<Seq<char>>, ids: Seq<Seq<char>>)
    requires
        sorted_set(a, ids),
        sorted_set(b, ids),
    ensures
        a == b,
{
    lemma_keys_agree(a, b, a.len() as int);
    lemma_keys_agree(b, a, b.len() as int);
    assert(a =~= b);
}

/// Sorted distinct keys name nothing twice.
pub proof fn sorted_set_is_distinct(keys: Seq<Seq<char>>, ids: Seq<Seq<char>>)
    requires
        sorted_set(keys, ids),
    ensures
        keys.no_duplicates(),
{
    assert forall|i: int, j: int| 0 <= i < j < keys.len() implies keys[i] != keys[j] by {
        assert(crate::order::lex_lt(keys[i], keys[j]));
        if keys[i] == keys[j] {
            crate::order::lex_lt_asymmetric(keys[i], keys[j]);
        }
    }
}

proof fn lemma_keys_agree(a: Seq<Seq<char>>, b: Seq<Seq<char>>, k: int)
    requires
        forall|i: int, j: int|
            0 <= i < j < a.len() ==> crate::order::lex_lt(#[trigger] a[i], #[trigger] a[j]),
        forall|i: int, j: int|
            0 <= i < j < b.len() ==> crate::order::lex_lt(#[trigger] b[i], #[trigger] b[j]),
        forall|x: Seq<char>| #[trigger] a.contains(x) <==> b.contains(x),
        0 <= k <= a.len(),
    ensures
        k <= b.len(),
        forall|i: int| 0 <= i < k ==> a[i] == b[i],
    decreases k,
{
    if k > 0 {
        let at = k - 1;
        lemma_keys_agree(a, b, at);
        assert(a.contains(a[at]));
        assert(b.contains(a[at]));
        let p = b.index_of(a[at]);
        if p < at {
            assert(a[p] == b[p]);
            crate::order::lex_lt_asymmetric(a[p], a[at]);
        } else if p > at {
            assert(b.contains(b[at]));
            assert(a.contains(b[at]));
            let q = a.index_of(b[at]);
            if q < at {
                assert(a[q] == b[q]);
                crate::order::lex_lt_asymmetric(b[q], b[at]);
            }
            crate::order::lex_lt_asymmetric(a[at], b[at]);
        }
    }
}

/// Whether `s` occurs in `v`.
pub fn has_text(v: &Vec<String>, s: &str) -> (r: bool)
    ensures
        r == crate::text::texts(v@).contains(s@),
{
    let mut i: usize = 0;
    while i < v.len()
        invariant
            i <= v.len(),
            forall|k: int| 0 <= k < i ==> crate::text::texts(v@)[k] != s@,
        decreases v.len() - i,
    {
        if same(v[i].as_str(), s) {
            assert(crate::text::texts(v@)[i as int] == s@);
            return true;
        }
        i = i + 1;
    }
    false
}

/// The texts of `ids`, each once, in ascending order.
pub fn distinct_sorted(ids: &Vec<String>) -> (r: Vec<String>)
    ensures
        sorted_set(crate::text::texts(r@), crate::text::texts(ids@)),
{
    let mut r: Vec<String> = Vec::new();
    let mut k: usize = 0;
    while k < ids.len()
        invariant
            k <= ids.len(),
            sorted_set(crate::text::texts(r@), crate::text::texts(ids@).take(k as int)),
        decreases ids.len() - k,
    {
        let ghost id = ids@[k as int]@;
        let ghost keys = crate::text::texts(r@);
        let ghost seen = crate::text::texts(ids@).take(k as int);
        let ghost next = crate::text::texts(ids@).take(k + 1);
        proof {
            assert(next =~= seen.push(id));
            assert forall|x: Seq<char>| #[trigger]
                next.contains(x) <==> (seen.contains(x) || x == id) by {
                if seen.contains(x) {
                    let i = seen.index_of(x);
                    assert(next[i] == x);
                }
                if x == id {
                    assert(next[k as int] == x);
                }
            }
        }
        let mut p: usize = 0;
        while p < r.len() && text_before(r[p].as_str(), ids[k].as_str())
            invariant
                p <= r.len(),
                k < ids.len(),
                keys == crate::text::texts(r@),
                id == ids@[k as int]@,
                forall|i: int| 0 <= i < p ==> crate::order::lex_lt(#[trigger] keys[i], id),
            ensures
                p <= r.len(),
                p < r.len() ==> !crate::order::lex_lt(keys[p as int], id),
                forall|i: int| 0 <= i < p ==> crate::order::lex_lt(#[trigger] keys[i], id),
            decreases r.len() - p,
        {
            p = p + 1;
        }
        if p < r.len() && same(r[p].as_str(), ids[k].as_str()) {
            assert(keys[p as int] == id);
        } else {
            r.insert(p, ids[k].clone());
            let ghost grown = crate::text::texts(r@);
            proof {
                assert(grown =~= keys.insert(p as int, id));
                assert forall|i: int| p <= i < keys.len() implies crate::order::lex_lt(
                    id,
                    #[trigger] keys[i],
                ) by {
                    crate::order::lex_lt_total(keys[p as int], id);
                    if i > p {
                        crate::order::lex_lt_transitive(id, keys[p as int], keys[i]);
                    }
                }
                assert forall|i: int, j: int| 0 <= i < j < grown.len() implies crate::order::lex_lt(
                    #[trigger] grown[i],
                    #[trigger] grown[j],
                ) by {
                    let a = if i < p {
                        i
                    } else {
                        i - 1
                    };
                    let b = if j < p {
                        j
                    } else {
                        j - 1
                    };
                    if i != p && j != p {
                        assert(grown[i] == keys[a] && grown[j] == keys[b]);
                    }
                }
                assert forall|x: Seq<char>| #[trigger] grown.contains(x) <==> next.contains(x) by {
                    if grown.contains(x) {
                        let i = grown.index_of(x);
                        if i < p {
                            assert(keys[i] == x);
                        } else if i > p {
                            assert(keys[i - 1] == x);
                        }
                    }
                    if keys.contains(x) {
                        let i = keys.index_of(x);
                        if i < p {
                            assert(grown[i] == x);
                        } else {
                            assert(grown[i + 1] == x);
                        }
                    }
                    assert(grown[p as int] == id);
                }
            }
        }
        k = k + 1;
    }
    assert(crate::text::texts(ids@).take(k as int) =~= crate::text::texts(ids@));
    r
}

} // verus!
