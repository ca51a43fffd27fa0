//! Saturating sums, maxima and percentages.
use vstd::prelude::*;

verus! {

/// `n` clipped to 64 bits.
pub open spec fn clipped(n: int) -> u64 {
    if n > u64::MAX {
        u64::MAX
    } else {
        n as u64
    }
}

/// `n` clipped to 64 bits.
pub fn clip(n: u128) -> (r: u64)
    ensures
        r == clipped(n as int),
{
    if n > u64::MAX as u128 {
        u64::MAX
    } else {
        n as u64
    }
}

/// Sum of all items.
pub open spec fn sum_of(s: Seq<u64>) -> int
    decreases s.len(),
{
    if s.len() == 0 {
        0
    } else {
        sum_of(s.drop_last()) + s.last()
    }
}

/// The greatest item, 0 if there is none.
pub open spec fn greatest(s: Seq<u64>) -> u64
    decreases s.len(),
{
    if s.len() == 0 {
        0
    } else if s.last() > greatest(s.drop_last()) {
        s.last()
    } else {
        greatest(s.drop_last())
    }
}

/// Whether any item is positive.
pub open spec fn any_positive(s: Seq<u64>) -> bool {
    exists|i: int| 0 <= i < s.len() && #[trigger] s[i] > 0
}

/// The greatest item bounds every item.
pub proof fn greatest_bounds(s: Seq<u64>, i: int)
    requires
        0 <= i < s.len(),
    ensures
        s[i] <= greatest(s),
    decreases s.len(),
{
    if i < s.len() - 1 {
        greatest_bounds(s.drop_last(), i);
    }
}

/// The greatest item of a non-zero sequence is one of its items.
pub proof fn greatest_occurs(s: Seq<u64>)
    ensures
        greatest(s) == 0 || s.contains(greatest(s)),
    decreases s.len(),
{
    if s.len() > 0 {
        greatest_occurs(s.drop_last());
        if s.last() > greatest(s.drop_last()) {
            assert(s[s.len() - 1] == greatest(s));
        } else if greatest(s) != 0 {
            let i = choose|i: int|
                0 <= i < s.drop_last().len() && s.drop_last()[i] == greatest(s.drop_last());
            assert(s[i] == greatest(s));
        }
    }
}

/// The greatest item, 0 if there is none.
pub fn greatest_of(v: &Vec<u64>) -> (r: u64)
    ensures
        r == greatest(v@),
{
    let mut r: u64 = 0;
    let mut i: usize = 0;
    while i < v.len()
        invariant
            i <= v.len(),
            r == greatest(v@.take(i as int)),
        decreases v.len() - i,
    {
        assert(v@.take(i + 1).drop_last() == v@.take(i as int));
        if v[i] > r {
            r = v[i];
        }
        i = i + 1;
    }
    assert(v@.take(i as int) == v@);
    r
}

/// The sum of all items.
pub fn total_of(v: &Vec<u64>) -> (r: u128)
    ensures
        r == sum_of(v@),
{
    let mut r: u128 = 0;
    let mut i: usize = 0;
    while i < v.len()
        invariant
            i <= v.len(),
            r == sum_of(v@.take(i as int)),
            r <= i * 0xffff_ffff_ffff_ffff,
        decreases v.len() - i,
    {
        assert(v@.take(i + 1).drop_last() == v@.take(i as int));
        assert(i * 0xffff_ffff_ffff_ffff <= 0xffff_ffff_ffff_ffff * 0xffff_ffff_ffff_ffff)
            by (nonlinear_arith)
            requires
                i <= 0xffff_ffff_ffff_ffff,
        ;
        assert((i + 1) * 0xffff_ffff_ffff_ffff == i * 0xffff_ffff_ffff_ffff + 0xffff_ffff_ffff_ffff)
            by (nonlinear_arith);
        r = r + v[i] as u128;
        i = i + 1;
    }
    assert(v@.take(i as int) == v@);
    r
}

/// `part` as whole percent of `whole`, at most 999; 0 of nothing.
pub open spec fn percent(part: int, whole: int) -> int {
    if whole == 0 {
        0
    } else if part * 100 / whole > 999 {
        999
    } else {
        part * 100 / whole
    }
}

/// `part` as whole percent of `whole`, at most 999; 0 of nothing.
pub fn percent_of(part: u64, whole: u64) -> (r: u32)
    ensures
        r == percent(part as int, whole as int),
        r <= 999,
{
    if whole == 0 {
        0
    } else {
        let p: u128 = part as u128 * 100 / whole as u128;
        if p > 999 {
            999
        } else {
            p as u32
        }
    }
}

} // verus!
