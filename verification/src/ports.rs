//! Listening ports: labels, sorted sets and their differences.
use crate::order::text_before;
use crate::text::{cat3, chars_of, dec, parse_u16, same, text_of};
use vstd::prelude::*;

verus! {

/// A transport and a port number.
pub struct Port {
    pub proto: String,
    pub port: u16,
}

/// A port as a pair of transport text and number.
pub type PortKey = (Seq<char>, u16);

impl Port {
    /// The pair this port stands for.
    pub open spec fn key(self) -> PortKey {
        (self.proto@, self.port)
    }
}

/// The pairs of a list of ports.
pub open spec fn keys(v: Seq<Port>) -> Seq<PortKey> {
    v.map_values(|p: Port| p.key())
}

/// `a` sorts before `b`: by transport, then by number.
pub open spec fn key_lt(a: PortKey, b: PortKey) -> bool {
    crate::order::lex_lt(a.0, b.0) || (a.0 == b.0 && a.1 < b.1)
}

proof fn lemma_key_lt_transitive(a: PortKey, b: PortKey, c: PortKey)
    requires
        key_lt(a, b),
        key_lt(b, c),
    ensures
        key_lt(a, c),
{
    if crate::order::lex_lt(a.0, b.0) && crate::order::lex_lt(b.0, c.0) {
        crate::order::lex_lt_transitive(a.0, b.0, c.0);
    }
}

proof fn lemma_key_lt_total(a: PortKey, b: PortKey)
    ensures
        a == b || key_lt(a, b) || key_lt(b, a),
{
    crate::order::lex_lt_total(a.0, b.0);
}

/// Every port sorts before the next; none occurs twice.
pub open spec fn ascending(s: Seq<PortKey>) -> bool {
    forall|i: int, j: int| 0 <= i < j < s.len() ==> key_lt(#[trigger] s[i], #[trigger] s[j])
}

/// `s` lists the ports of `of`, each once, in ascending order.
pub open spec fn port_set(s: Seq<PortKey>, of: Seq<PortKey>) -> bool {
    ascending(s) && forall|k: PortKey| #[trigger] s.contains(k) <==> of.contains(k)
}

/// An ascending list is determined by its members.
pub proof fn port_sets_agree(a: Seq<PortKey>, b: Seq<PortKey>)
    requires
        ascending(a),
        ascending(b),
        forall|k: PortKey| #[trigger] a.contains(k) <==> b.contains(k),
    ensures
        a == b,
    decreases a.len(),
{
    if a.len() == 0 {
        if b.len() > 0 {
            assert(b.contains(b[0]));
            assert(a.contains(b[0]));
        }
        assert(a =~= b);
    } else {
        assert(a.contains(a[0]));
        let i = b.index_of(a[0]);
        assert(b.contains(b[0]));
        assert(a.contains(b[0]));
        let j = a.index_of(b[0]);
        if i > 0 {
            assert(key_lt(b[0], b[i]));
            if j > 0 {
                assert(key_lt(a[0], a[j]));
                lemma_key_lt_transitive(a[0], b[0], a[0]);
            }
            lemma_key_irreflexive(a[0]);
        }
        let ra = a.skip(1);
        let rb = b.skip(1);
        assert forall|k: PortKey| #[trigger] ra.contains(k) <==> rb.contains(k) by {
            lemma_key_irreflexive(a[0]);
            if ra.contains(k) {
                let p = ra.index_of(k);
                assert(a[p + 1] == k);
                assert(key_lt(a[0], a[p + 1]));
                assert(a.contains(k));
                let q = b.index_of(k);
                assert(q > 0);
                assert(rb[q - 1] == k);
            }
            if rb.contains(k) {
                let p = rb.index_of(k);
                assert(b[p + 1] == k);
                assert(key_lt(b[0], b[p + 1]));
                assert(b.contains(k));
                assert(a.contains(k));
                let q = a.index_of(k);
                assert(q > 0);
                assert(ra[q - 1] == k);
            }
        }
        port_sets_agree(ra, rb);
        assert(a =~= seq![a[0]] + ra);
        assert(b =~= seq![b[0]] + rb);
    }
}

proof fn lemma_key_irreflexive(a: PortKey)
    ensures
        !key_lt(a, a),
{
    crate::order::lex_lt_asymmetric(a.0, a.0);
}

/// A port as `proto/number`.
pub open spec fn label_text(k: PortKey) -> Seq<char> {
    k.0 + "/"@ + crate::text::dec_text(k.1 as nat)
}

/// A port as `proto/number`.
pub fn port_label(p: &Port) -> (r: String)
    ensures
        r@ == label_text(p.key()),
{
    let n = dec(p.port as u64);
    cat3(p.proto.as_str(), "/", n.as_str())
}

/// First position of a slash from `i` on, the length without one.
pub open spec fn slash_from(s: Seq<char>, i: int) -> int
    decreases s.len() - i,
{
    if i >= s.len() {
        s.len() as int
    } else if s[i] == '/' {
        i
    } else {
        slash_from(s, i + 1)
    }
}

/// The port that a label names: transport before the first slash, number
/// behind it. No port without a slash or where the number does not fit.
pub open spec fn labelled_port(s: Seq<char>) -> Option<PortKey> {
    let at = slash_from(s, 0);
    if at >= s.len() {
        None
    } else {
        match crate::text::parsed_number(s.skip(at + 1), 65535) {
            Some(n) => Some((s.take(at), n as u16)),
            None => None,
        }
    }
}

/// The port that a label names.
pub fn parse_port_label(s: &str) -> (r: Option<Port>)
    ensures
        match r {
            Some(p) => labelled_port(s@) == Some(p.key()),
            None => labelled_port(s@) is None,
        },
{
    let v = chars_of(s);
    let mut i: usize = 0;
    while i < v.len() && v[i] != '/'
        invariant
            v@ == s@,
            i <= v.len(),
            slash_from(s@, 0) == slash_from(s@, i as int),
        decreases v.len() - i,
    {
        i = i + 1;
    }
    if i >= v.len() {
        return None;
    }
    let mut tail: Vec<char> = Vec::new();
    let mut k: usize = i + 1;
    while k < v.len()
        invariant
            v@ == s@,
            i + 1 <= k <= v.len(),
            tail@ == s@.subrange(i + 1, k as int),
        decreases v.len() - k,
    {
        tail.push(v[k]);
        assert(tail@ =~= s@.subrange(i + 1, k + 1));
        k = k + 1;
    }
    assert(tail@ =~= s@.skip(i + 1));
    match parse_u16(&tail) {
        Some(port) => {
            let proto = text_of(&v, 0, i);
            assert(proto@ =~= s@.take(i as int));
            Some(Port { proto, port })
        },
        None => None,
    }
}

/// The ports that the first `n` labels name, in order; what names none is
/// left out.
pub open spec fn labelled_ports(labels: Seq<Seq<char>>, n: int) -> Seq<PortKey>
    decreases n,
{
    if n <= 0 {
        Seq::empty()
    } else {
        match labelled_port(labels[n - 1]) {
            Some(k) => labelled_ports(labels, n - 1).push(k),
            None => labelled_ports(labels, n - 1),
        }
    }
}

fn port_before(a: &Port, b: &Port) -> (r: bool)
    ensures
        r == key_lt(a.key(), b.key()),
{
    text_before(a.proto.as_str(), b.proto.as_str()) || (same(a.proto.as_str(), b.proto.as_str())
        && a.port < b.port)
}

/// Whether two ports are the same.
pub fn same_port(a: &Port, b: &Port) -> (r: bool)
    ensures
        r == (a.key() == b.key()),
{
    a.port == b.port && same(a.proto.as_str(), b.proto.as_str())
}

/// Whether `v` holds the port `p`.
pub fn has_port(v: &Vec<Port>, p: &Port) -> (r: bool)
    ensures
        r == keys(v@).contains(p.key()),
{
    let mut i: usize = 0;
    while i < v.len()
        invariant
            i <= v.len(),
            forall|k: int| 0 <= k < i ==> keys(v@)[k] != p.key(),
        decreases v.len() - i,
    {
        if same_port(&v[i], p) {
            assert(keys(v@)[i as int] == p.key());
            return true;
        }
        i = i + 1;
    }
    false
}

/// A copy of a port.
pub fn copy_port(p: &Port) -> (r: Port)
    ensures
        r.key() == p.key(),
{
    Port { proto: p.proto.clone(), port: p.port }
}

/// Adds `p` to an ascending list that may hold it already.
fn insert_port(v: &mut Vec<Port>, p: Port)
    requires
        ascending(keys(old(v)@)),
    ensures
        ascending(keys(final(v)@)),
        forall|k: PortKey| #[trigger]
            keys(final(v)@).contains(k) <==> keys(old(v)@).contains(k) || k == p.key(),
{
    let ghost ks = keys(v@);
    let ghost key = p.key();
    let mut at: usize = 0;
    while at < v.len() && port_before(&v[at], &p)
        invariant
            at <= v.len(),
            ks == keys(v@),
            key == p.key(),
            forall|i: int| 0 <= i < at ==> key_lt(#[trigger] ks[i], key),
        ensures
            at <= v.len(),
            at < v.len() ==> !key_lt(ks[at as int], key),
            forall|i: int| 0 <= i < at ==> key_lt(#[trigger] ks[i], key),
        decreases v.len() - at,
    {
        at = at + 1;
    }
    if at < v.len() && same_port(&v[at], &p) {
        assert(ks[at as int] == key);
        return;
    }
    proof {
        if at < v.len() {
            lemma_key_lt_total(ks[at as int], key);
        }
    }
    v.insert(at, p);
    let ghost grown = keys(v@);
    proof {
        assert(grown =~= ks.insert(at as int, key));
        assert forall|i: int| at <= i < ks.len() implies key_lt(key, #[trigger] ks[i]) by {
            if i > at {
                lemma_key_lt_transitive(key, ks[at as int], ks[i]);
            }
        }
        assert forall|i: int, j: int| 0 <= i < j < grown.len() implies key_lt(
            #[trigger] grown[i],
            #[trigger] grown[j],
        ) by {
            let a = if i < at {
                i
            } else {
                i - 1
            };
            let b = if j < at {
                j
            } else {
                j - 1
            };
            if i != at && j != at {
                assert(grown[i] == ks[a] && grown[j] == ks[b]);
            }
        }
        assert forall|k: PortKey| #[trigger] grown.contains(k) <==> ks.contains(k) || k == key by {
            if grown.contains(k) {
                let i = grown.index_of(k);
                if i < at {
                    assert(ks[i] == k);
                } else if i > at {
                    assert(ks[i - 1] == k);
                }
            }
            if ks.contains(k) {
                let i = ks.index_of(k);
                if i < at {
                    assert(grown[i] == k);
                } else {
                    assert(grown[i + 1] == k);
                }
            }
            assert(grown[at as int] == key);
        }
    }
}

/// The ports of `ports`, each once, in ascending order.
pub fn sorted_ports(ports: &Vec<Port>) -> (r: Vec<Port>)
    ensures
        port_set(keys(r@), keys(ports@)),
{
    let mut r: Vec<Port> = Vec::new();
    let mut i: usize = 0;
    while i < ports.len()
        invariant
            i <= ports.len(),
            port_set(keys(r@), keys(ports@).take(i as int)),
        decreases ports.len() - i,
    {
        let ghost seen = keys(ports@).take(i as int);
        let ghost next = keys(ports@).take(i + 1);
        proof {
            assert(next =~= seen.push(ports@[i as int].key()));
            assert forall|k: PortKey| #[trigger]
                next.contains(k) <==> seen.contains(k) || k == ports@[i as int].key() by {
                if seen.contains(k) {
                    assert(next[seen.index_of(k)] == k);
                }
                assert(next[i as int] == ports@[i as int].key());
            }
        }
        insert_port(&mut r, copy_port(&ports[i]));
        i = i + 1;
    }
    assert(keys(ports@).take(i as int) =~= keys(ports@));
    r
}

/// `d` lists what `a` holds and `b` does not, in ascending order.
pub open spec fn difference_of(d: Seq<PortKey>, a: Seq<PortKey>, b: Seq<PortKey>) -> bool {
    ascending(d) && forall|k: PortKey| #[trigger]
        d.contains(k) <==> a.contains(k) && !b.contains(k)
}

/// What the ascending list `a` holds and `b` does not.
pub fn difference(a: &Vec<Port>, b: &Vec<Port>) -> (r: Vec<Port>)
    requires
        ascending(keys(a@)),
    ensures
        difference_of(keys(r@), keys(a@), keys(b@)),
{
    let mut r: Vec<Port> = Vec::new();
    let ghost ka = keys(a@);
    let ghost kb = keys(b@);
    let mut i: usize = 0;
    while i < a.len()
        invariant
            i <= a.len(),
            ka == keys(a@),
            kb == keys(b@),
            ascending(ka),
            ascending(keys(r@)),
            forall|k: PortKey| #[trigger]
                keys(r@).contains(k) <==> ka.take(i as int).contains(k) && !kb.contains(k),
        decreases a.len() - i,
    {
        let ghost before = keys(r@);
        let ghost next = ka.take(i + 1);
        proof {
            assert(next =~= ka.take(i as int).push(ka[i as int]));
            assert forall|k: PortKey| #[trigger]
                next.contains(k) <==> ka.take(i as int).contains(k) || k == ka[i as int] by {
                if ka.take(i as int).contains(k) {
                    assert(next[ka.take(i as int).index_of(k)] == k);
                }
                assert(next[i as int] == ka[i as int]);
            }
        }
        if !has_port(b, &a[i]) {
            r.push(copy_port(&a[i]));
            proof {
                let grown = keys(r@);
                assert(grown =~= before.push(ka[i as int]));
                assert forall|x: int, y: int| 0 <= x < y < grown.len() implies key_lt(
                    #[trigger] grown[x],
                    #[trigger] grown[y],
                ) by {
                    if y == grown.len() - 1 {
                        assert(before.contains(before[x]));
                        let p = ka.take(i as int).index_of(before[x]);
                        assert(key_lt(ka[p], ka[i as int]));
                    } else {
                        assert(grown[x] == before[x] && grown[y] == before[y]);
                    }
                }
                assert forall|k: PortKey| #[trigger]
                    grown.contains(k) <==> before.contains(k) || k == ka[i as int] by {
                    if before.contains(k) {
                        assert(grown[before.index_of(k)] == k);
                    }
                    assert(grown[before.len() as int] == ka[i as int]);
                }
            }
        }
        i = i + 1;
    }
    assert(ka.take(i as int) =~= ka);
    r
}

/// Printing a port without a slash in its transport and reading the label
/// gives the port back.
pub proof fn label_reads_back(k: PortKey)
    requires
        !k.0.contains('/'),
    ensures
        labelled_port(label_text(k)) == Some(k),
{
    let s = label_text(k);
    reveal_strlit("/");
    lemma_slash_at(s, 0, k.0.len() as int);
    assert(s.take(k.0.len() as int) =~= k.0);
    assert(s.skip(k.0.len() as int + 1) =~= crate::text::dec_text(k.1 as nat));
    crate::text::decimal_reads_back(k.1 as nat, 65535);
}

proof fn lemma_slash_at(s: Seq<char>, i: int, at: int)
    requires
        0 <= i <= at < s.len(),
        s[at] == '/',
        forall|j: int| i <= j < at ==> s[j] != '/',
    ensures
        slash_from(s, i) == at,
    decreases at - i,
{
    if i < at {
        lemma_slash_at(s, i + 1, at);
    }
}

} // verus!
