//! Laws of texts, numbers and orders.
use crate::locale::Locale;
use vstd::prelude::*;

verus! {

/// Each language gets its own text.
pub proof fn each_language_its_own(en: &'static str, ru: &'static str)
    ensures
        crate::locale::in_language(Locale::En, en, ru) == en,
        crate::locale::in_language(Locale::Ru, en, ru) == ru,
{
}

/// The contents of a list of strings, string by string, and of one that may be
/// missing.
pub proof fn contents_are_kept(v: Seq<String>, i: int, s: String)
    ensures
        crate::text::texts(v).len() == v.len(),
        0 <= i < v.len() ==> crate::text::texts(v)[i] == v[i]@,
        crate::text::opt_string(Some(s)) == Some(s@),
        crate::text::opt_string(None) is None,
{
}

/// A list of texts holds a text exactly where one of its strings reads so.
pub proof fn holds_text(v: Seq<String>, x: Seq<char>)
    ensures
        crate::text::texts(v).contains(x) <==> exists|i: int|
            0 <= i < v.len() && (#[trigger] v[i])@ == x,
{
    let t = crate::text::texts(v);
    if t.contains(x) {
        let i = t.index_of(x);
        assert(v[i]@ == x);
    }
    if exists|i: int| 0 <= i < v.len() && (#[trigger] v[i])@ == x {
        let i = choose|i: int| 0 <= i < v.len() && (#[trigger] v[i])@ == x;
        assert(t[i] == x);
    }
}

/// A run of digits denotes ten times what stands before its last digit, and
/// that digit.
pub proof fn digits_count_in_tens(s: Seq<char>, d: nat)
    requires
        d < 10,
    ensures
        crate::text::dec_value(Seq::empty()) == 0,
        crate::text::dec_value(s.push(crate::text::digit_char(d))) == crate::text::dec_value(s) * 10
            + d,
        crate::text::digit_char(d) as int == '0' as int + d,
{
    assert(s.push(crate::text::digit_char(d)).drop_last() =~= s);
}

/// A printed number is made of decimal digits, denotes the number, and starts
/// with a zero only where it is zero.
pub proof fn printed_number(n: nat)
    ensures
        crate::text::dec_text(n).len() > 0,
        forall|i: int|
            0 <= i < crate::text::dec_text(n).len() ==> '0' <= #[trigger] crate::text::dec_text(n)[i]
                && crate::text::dec_text(n)[i] <= '9',
        crate::text::dec_value(crate::text::dec_text(n)) == n,
        crate::text::dec_text(n)[0] == '0' <==> n == 0,
        crate::text::dec_text(n).len() == 1 <==> n < 10,
        crate::text::dec_text(n).len() == 2 <==> 10 <= n < 100,
    decreases n,
{
    if n >= 10 {
        printed_number(n / 10);
        let front = crate::text::dec_text(n / 10);
        assert(crate::text::dec_text(n) == front.push(crate::text::digit_char(n % 10)));
        assert(crate::text::dec_text(n).drop_last() =~= front);
        assert(crate::text::dec_text(n)[0] == front[0]);
    } else {
        let one = seq![crate::text::digit_char(n)];
        assert(one.drop_last() =~= Seq::empty());
        assert(crate::text::dec_value(one.drop_last()) == 0);
        assert(one.last() as int == 48 + n);
    }
}

/// A number below a hundred is padded to two digits that denote it; any other
/// is printed as it stands.
pub proof fn padded_number(n: nat)
    ensures
        n < 100 ==> crate::text::dec2_text(n).len() == 2,
        n >= 10 ==> crate::text::dec2_text(n) == crate::text::dec_text(n),
        crate::text::dec_value(crate::text::dec2_text(n)) == n,
{
    printed_number(n);
    if n < 10 {
        reveal_strlit("0");
        let s = crate::text::dec2_text(n);
        assert(s =~= seq!['0', crate::text::digit_char(n)]);
        assert(s.drop_last() =~= seq!['0']);
        assert(seq!['0'].drop_last() =~= Seq::empty());
        reveal_with_fuel(crate::text::dec_value, 3);
    }
}

/// Joining two lists is joining each and setting one separator between them.
pub proof fn joined_in_parts(a: Seq<Seq<char>>, b: Seq<Seq<char>>, sep: Seq<char>)
    requires
        a.len() > 0,
        b.len() > 0,
    ensures
        crate::text::join_text(a + b, sep) == crate::text::join_text(a, sep) + sep
            + crate::text::join_text(b, sep),
        crate::text::join_text(seq![a[0]], sep) == a[0],
        crate::text::join_text(Seq::empty(), sep).len() == 0,
    decreases b.len(),
{
    let s = a + b;
    assert(s.last() == b.last());
    if b.len() == 1 {
        assert(s.drop_last() =~= a);
    } else {
        joined_in_parts(a, b.drop_last(), sep);
        assert(s.drop_last() =~= a + b.drop_last());
        assert(crate::text::join_text(s, sep) =~= crate::text::join_text(a, sep) + sep
            + crate::text::join_text(b, sep));
    }
}

/// A pattern occurs in a text exactly where the text is something, the
/// pattern, and something more.
pub proof fn occurrence_splits(s: Seq<char>, pat: Seq<char>)
    ensures
        crate::text::occurs_in(s, pat) <==> exists|a: Seq<char>, b: Seq<char>|
            s == #[trigger] (a + pat + b),
{
    if crate::text::occurs_in(s, pat) {
        let i = choose|i: int| crate::text::occurs_at(s, pat, i);
        let a = s.take(i);
        let b = s.skip(i + pat.len() as int);
        assert(s =~= a + pat + b) by {
            assert forall|k: int| 0 <= k < s.len() implies s[k] == (a + pat + b)[k] by {
                if i <= k < i + pat.len() {
                    assert(s.subrange(i, i + pat.len() as int)[k - i] == pat[k - i]);
                }
            }
        }
    }
    if exists|a: Seq<char>, b: Seq<char>| s == #[trigger] (a + pat + b) {
        let (a, b) = choose|a: Seq<char>, b: Seq<char>| s == #[trigger] (a + pat + b);
        assert(s.subrange(a.len() as int, a.len() + pat.len() as int) =~= pat);
        assert(crate::text::occurs_at(s, pat, a.len() as int));
    }
}

proof fn lemma_skip_space(s: Seq<char>, from: int)
    requires
        0 <= from <= s.len(),
    ensures
        from <= crate::text::skip_space(s, from) <= s.len(),
        forall|i: int|
            from <= i < crate::text::skip_space(s, from) ==> crate::text::white_space(
                #[trigger] s[i],
            ),
        crate::text::skip_space(s, from) < s.len() ==> !crate::text::white_space(
            s[crate::text::skip_space(s, from)],
        ),
    decreases s.len() - from,
{
    if from < s.len() && crate::text::white_space(s[from]) {
        lemma_skip_space(s, from + 1);
    }
}

proof fn lemma_drop_space(s: Seq<char>, from: int, to: int)
    requires
        0 <= from <= to <= s.len(),
    ensures
        from <= crate::text::drop_space(s, from, to) <= to,
        forall|i: int|
            crate::text::drop_space(s, from, to) <= i < to ==> crate::text::white_space(
                #[trigger] s[i],
            ),
        crate::text::drop_space(s, from, to) > from ==> !crate::text::white_space(
            s[crate::text::drop_space(s, from, to) - 1],
        ),
    decreases to - from,
{
    if from < to && crate::text::white_space(s[to - 1]) {
        lemma_drop_space(s, from, to - 1);
    }
}

/// All of a text is white space.
pub open spec fn blank(s: Seq<char>) -> bool {
    forall|i: int| 0 <= i < s.len() ==> crate::text::white_space(#[trigger] s[i])
}

/// Trimming takes white space from both ends, all of it, and nothing else.
pub proof fn trimming_takes_the_blank_ends(s: Seq<char>)
    ensures
        exists|a: Seq<char>, b: Seq<char>|
            blank(a) && blank(b) && s == #[trigger] (a + crate::text::trimmed(s) + b),
        crate::text::trimmed(s).len() > 0 ==> !crate::text::white_space(
            crate::text::trimmed(s)[0],
        ) && !crate::text::white_space(crate::text::trimmed(s).last()),
        crate::text::trimmed(s).len() == 0 <==> blank(s),
{
    let from = crate::text::skip_space(s, 0);
    lemma_skip_space(s, 0);
    let to = crate::text::drop_space(s, from, s.len() as int);
    lemma_drop_space(s, from, s.len() as int);
    let a = s.take(from);
    let b = s.skip(to);
    let t = crate::text::trimmed(s);
    assert(t == s.subrange(from, to));
    assert(blank(a));
    assert(blank(b)) by {
        assert forall|i: int| 0 <= i < b.len() implies crate::text::white_space(#[trigger] b[i]) by {
            assert(b[i] == s[to + i]);
        }
    }
    assert(s =~= a + t + b);
    if t.len() > 0 {
        assert(t[0] == s[from]);
        assert(t.last() == s[to - 1]);
        assert(!blank(s));
    } else {
        assert forall|i: int| 0 <= i < s.len() implies crate::text::white_space(#[trigger] s[i]) by {
            if i < from {
            } else {
                assert(from == to);
            }
        }
    }
}

/// A run of one or more decimal digits.
pub open spec fn digit_run(d: Seq<char>) -> bool {
    d.len() > 0 && forall|i: int| 0 <= i < d.len() ==> '0' <= #[trigger] d[i] && d[i] <= '9'
}

/// A text reads as the number `n` up to `max` exactly where it is a run of
/// digits that denotes `n`, alone or behind one plus sign.
pub proof fn read_number(s: Seq<char>, max: nat, n: nat)
    ensures
        crate::text::parsed_number(s, max) == Some(n) <==> n <= max && exists|d: Seq<char>|
            #[trigger] digit_run(d) && crate::text::dec_value(d) == n && (s == d || s == seq!['+']
                + d),
{
    let d = crate::text::unsigned_part(s);
    if s.len() > 0 && s[0] == '+' {
        assert(s =~= seq!['+'] + d);
    }
    if crate::text::parsed_number(s, max) == Some(n) {
        assert(digit_run(d)) by {
            assert forall|i: int| 0 <= i < d.len() implies '0' <= #[trigger] d[i] && d[i] <= '9' by {
                assert(crate::text::is_digit(d[i]));
            }
        }
    }
    if n <= max && exists|d: Seq<char>|
        #[trigger] digit_run(d) && crate::text::dec_value(d) == n && (s == d || s == seq!['+'] + d) {
        let e = choose|e: Seq<char>| #[trigger]
            digit_run(e) && crate::text::dec_value(e) == n && (s == e || s == seq!['+'] + e);
        if s == e {
            assert('0' <= e[0] && e[0] <= '9');
        } else {
            assert(s[0] == '+');
        }
        assert(d =~= e);
        assert forall|i: int| 0 <= i < d.len() implies crate::text::is_digit(#[trigger] d[i]) by {
            assert('0' <= e[i] && e[i] <= '9');
        }
    }
}

/// A number that fits stays as it is; one that does not becomes the greatest
/// that fits.
pub proof fn clipping(n: int)
    requires
        n >= 0,
    ensures
        n <= 0xffff_ffff_ffff_ffff ==> crate::numbers::clipped(n) == n,
        n > 0xffff_ffff_ffff_ffff ==> crate::numbers::clipped(n) == 0xffff_ffff_ffff_ffff,
{
}

/// Adding to a clipped sum and clipping again is clipping once.
pub proof fn clipping_once(a: int, b: int)
    requires
        a >= 0,
        b >= 0,
    ensures
        crate::numbers::clipped(crate::numbers::clipped(a) + b) == crate::numbers::clipped(a + b),
{
}

/// A percentage is the whole number of hundredths of `whole` that `part`
/// holds, cut off at 999.
pub proof fn percentage(part: int, whole: int, p: int)
    requires
        part >= 0,
        whole >= 0,
        p == crate::numbers::percent(part, whole),
    ensures
        0 <= p <= 999,
        whole == 0 ==> p == 0,
        whole > 0 ==> p * whole <= part * 100,
        whole > 0 && p < 999 ==> part * 100 < (p + 1) * whole,
{
    if whole > 0 {
        let q = part * 100 / whole;
        vstd::arithmetic::div_mod::lemma_fundamental_div_mod(part * 100, whole);
        vstd::arithmetic::div_mod::lemma_mod_bound(part * 100, whole);
        vstd::arithmetic::div_mod::lemma_div_pos_is_pos(part * 100, whole);
        assert(q * whole == whole * q) by (nonlinear_arith);
        assert((q + 1) * whole == whole * q + whole) by (nonlinear_arith);
        if q > 999 {
            assert(999 * whole <= q * whole) by (nonlinear_arith)
                requires
                    q > 999,
                    whole > 0,
            ;
        }
    }
}

/// Sums of two lists add up to the sum of both, and one item is its own sum.
pub proof fn sum_in_parts(a: Seq<u64>, b: Seq<u64>, x: u64)
    ensures
        crate::numbers::sum_of(a + b) == crate::numbers::sum_of(a) + crate::numbers::sum_of(b),
        crate::numbers::sum_of(seq![x]) == x,
        crate::numbers::sum_of(Seq::empty()) == 0,
    decreases b.len(),
{
    assert(seq![x].drop_last() =~= Seq::empty());
    reveal_with_fuel(crate::numbers::sum_of, 2);
    if b.len() == 0 {
        assert(a + b =~= a);
    } else {
        sum_in_parts(a, b.drop_last(), x);
        assert((a + b).drop_last() =~= a + b.drop_last());
    }
}

/// Something is positive exactly where the greatest item is.
pub proof fn positive_iff_greatest_is(s: Seq<u64>)
    ensures
        crate::numbers::any_positive(s) <==> crate::numbers::greatest(s) > 0,
{
    crate::numbers::greatest_occurs(s);
    if crate::numbers::any_positive(s) {
        let i = choose|i: int| 0 <= i < s.len() && #[trigger] s[i] > 0;
        crate::numbers::greatest_bounds(s, i);
    }
    if crate::numbers::greatest(s) > 0 {
        let i = s.index_of(crate::numbers::greatest(s));
        assert(s[i] > 0);
    }
}

/// `a` and `b` agree on their first `k` characters, and behind them `a` has
/// ended or has the smaller character.
pub open spec fn parts_at(a: Seq<char>, b: Seq<char>, k: int) -> bool {
    &&& 0 <= k <= a.len()
    &&& k < b.len()
    &&& forall|i: int| 0 <= i < k ==> #[trigger] a[i] == b[i]
    &&& k == a.len() || (a[k] as int) < (b[k] as int)
}

/// One text sorts before another exactly where they part at some character, as
/// in a dictionary.
pub proof fn sorts_as_in_a_dictionary(a: Seq<char>, b: Seq<char>)
    ensures
        crate::order::lex_lt(a, b) <==> exists|k: int| parts_at(a, b, k),
    decreases a.len(),
{
    if a.len() > 0 && b.len() > 0 && a[0] == b[0] {
        let x = a.skip(1);
        let y = b.skip(1);
        sorts_as_in_a_dictionary(x, y);
        if crate::order::lex_lt(a, b) {
            let k = choose|k: int| parts_at(x, y, k);
            assert forall|i: int| 0 <= i < k + 1 implies #[trigger] a[i] == b[i] by {
                if i > 0 {
                    assert(x[i - 1] == y[i - 1]);
                }
            }
            assert(parts_at(a, b, k + 1));
        }
        if exists|k: int| parts_at(a, b, k) {
            let k = choose|k: int| parts_at(a, b, k);
            assert(k > 0);
            assert forall|i: int| 0 <= i < k - 1 implies #[trigger] x[i] == y[i] by {
                assert(a[i + 1] == b[i + 1]);
            }
            assert(parts_at(x, y, k - 1));
        }
    } else if a.len() > 0 && b.len() > 0 {
        if crate::order::lex_lt(a, b) {
            assert(parts_at(a, b, 0));
        }
        if exists|k: int| parts_at(a, b, k) {
            let k = choose|k: int| parts_at(a, b, k);
            if k > 0 {
                assert(a[0] == b[0]);
            }
        }
    } else if b.len() > 0 {
        assert(parts_at(a, b, 0));
    }
}

/// In a sorted list nothing stands behind what sorts before it, equals keep
/// their order, and every index occurs once.
pub proof fn sorted_means_sorted(
    r: Seq<usize>,
    n: int,
    before: spec_fn(int, int) -> bool,
    i: int,
    j: int,
)
    requires
        crate::order::stably_sorted(r, n, before),
        crate::order::orders(n, before),
        0 <= i < j < r.len(),
    ensures
        !before(r[j] as int, r[i] as int),
        !before(r[i] as int, r[j] as int) ==> r[i] < r[j],
        r[i] != r[j],
        r.len() == n,
        r[i] < n,
{
    assert(crate::order::listed_before(before, r[i] as int, r[j] as int));
    if before(r[i] as int, r[j] as int) {
        assert(!before(r[j] as int, r[i] as int));
    }
}

/// A sorted list of keys holds what the ids hold, each once, each before the
/// next.
pub proof fn keys_ascend(keys: Seq<Seq<char>>, ids: Seq<Seq<char>>, x: Seq<char>, i: int, j: int)
    requires
        crate::lists::sorted_set(keys, ids),
        0 <= i < j < keys.len(),
    ensures
        keys.contains(x) <==> ids.contains(x),
        keys[i] != keys[j],
        exists|k: int| parts_at(keys[i], keys[j], k),
{
    sorts_as_in_a_dictionary(keys[i], keys[j]);
    crate::lists::sorted_set_is_distinct(keys, ids);
}

/// A sorted list holds exactly what the ids hold, and each of it once.
pub proof fn sorted_list_holds_the_ids(keys: Seq<Seq<char>>, ids: Seq<Seq<char>>, x: Seq<char>)
    requires
        crate::lists::sorted_set(keys, ids),
    ensures
        keys.contains(x) <==> ids.contains(x),
        keys.no_duplicates(),
{
    crate::lists::sorted_set_is_distinct(keys, ids);
}

/// The contents of a text that may be missing.
pub proof fn missing_text_stays_missing(s: &str)
    ensures
        crate::text::opt_text(Some(s)) == Some(s@),
        crate::text::opt_text(None) is None,
{
}

} // verus!
