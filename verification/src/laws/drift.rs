//! Laws of drift.
use crate::drift::{DeclaredProtocol, DriftGrid, DriftSummary, OrphanUuid, PortClass, PortDrift};
use crate::ports::Port;
use crate::share_links::RenderUser;
use vstd::prelude::*;

verus! {

/// A UDP listener in the range of peer sockets.
pub open spec fn peer_socket(p: Port) -> bool {
    p.proto@ == "udp"@ && p.port >= 30_000
}

/// A port that the web server opens for itself.
pub open spec fn web_internal(p: Port) -> bool {
    p.proto@ == "tcp"@ && (p.port == 80 || p.port == 2019)
}

/// Some declared protocol has `wireguard` or `amnezia` in its id.
pub open spec fn wireguard_declared(protocols: Seq<DeclaredProtocol>) -> bool {
    exists|i: int|
        0 <= i < protocols.len() && {
            ||| crate::text::occurs_in((#[trigger] protocols[i]).id@, "wireguard"@)
            ||| crate::text::occurs_in(protocols[i].id@, "amnezia"@)
        }
}

/// The label of a port.
pub open spec fn label(p: Port) -> Seq<char> {
    p.proto@ + "/"@ + crate::text::dec_text(p.port as nat)
}

proof fn lemma_tcp_is_not_udp()
    ensures
        "tcp"@ != "udp"@,
{
    reveal_strlit("tcp");
    reveal_strlit("udp");
    assert("tcp"@[0] != "udp"@[0]);
}

proof fn lemma_classes(extra: Seq<Port>, has_wg: bool, n: int)
    requires
        0 <= n <= extra.len(),
    ensures
        crate::drift::labels_of_class(extra, PortClass::Caddy, has_wg, n) == extra.take(n).filter(
            |p: Port| web_internal(p),
        ).map_values(|p: Port| label(p)),
        crate::drift::labels_of_class(extra, PortClass::WgPeer, has_wg, n) == (if has_wg {
            extra.take(n).filter(|p: Port| peer_socket(p)).map_values(|p: Port| label(p))
        } else {
            Seq::empty()
        }),
        crate::drift::labels_of_class(extra, PortClass::Unclassified, has_wg, n) == (if has_wg {
            extra.take(n).filter(
                |p: Port| !web_internal(p) && !peer_socket(p),
            ).map_values(|p: Port| label(p))
        } else {
            extra.take(n).filter(|p: Port| !web_internal(p)).map_values(|p: Port| label(p))
        }),
    decreases n,
{
    reveal(Seq::filter);
    lemma_tcp_is_not_udp();
    if n > 0 {
        lemma_classes(extra, has_wg, n - 1);
        assert(extra.take(n).drop_last() =~= extra.take(n - 1));
        assert(extra.take(n).last() == extra[n - 1]);
    }
}

/// The undeclared listeners in groups: ports 80 and 2019 on TCP belong to the
/// web server; UDP ports from 30000 on are sockets of peers, counted and not
/// listed, exactly where a WireGuard protocol is declared; everything else is
/// listed as unclassified, in order.
pub proof fn listeners_by_group(g: DriftGrid, protocols: Seq<DeclaredProtocol>, d: PortDrift)
    requires
        crate::drift::drift_grid(g, protocols, d),
    ensures
        crate::text::texts(g.caddy_internals@) == d.extra@.filter(
            |p: Port| web_internal(p),
        ).map_values(|p: Port| label(p)),
        wireguard_declared(protocols) ==> g.wg_peers == d.extra@.filter(
            |p: Port| peer_socket(p),
        ).len(),
        wireguard_declared(protocols) ==> crate::text::texts(g.unclassified@) == d.extra@.filter(
            |p: Port| !web_internal(p) && !peer_socket(p),
        ).map_values(|p: Port| label(p)),
        !wireguard_declared(protocols) ==> g.wg_peers == 0,
        !wireguard_declared(protocols) ==> crate::text::texts(g.unclassified@) == d.extra@.filter(
            |p: Port| !web_internal(p),
        ).map_values(|p: Port| label(p)),
        g.extra == d.extra@.len(),
{
    let n = d.extra@.len() as int;
    let has_wg = exists|i: int|
        0 <= i < protocols.len() && crate::drift::wg_based((#[trigger] protocols[i]).id@);
    if wireguard_declared(protocols) {
        let i = choose|i: int|
            0 <= i < protocols.len() && {
                ||| crate::text::occurs_in((#[trigger] protocols[i]).id@, "wireguard"@)
                ||| crate::text::occurs_in(protocols[i].id@, "amnezia"@)
            };
        assert(crate::drift::wg_based(protocols[i].id@));
    }
    if has_wg {
        let i = choose|i: int|
            0 <= i < protocols.len() && crate::drift::wg_based((#[trigger] protocols[i]).id@);
        assert(crate::text::occurs_in(protocols[i].id@, "wireguard"@) || crate::text::occurs_in(
            protocols[i].id@,
            "amnezia"@,
        ));
    }
    lemma_classes(d.extra@, has_wg, n);
    assert(d.extra@.take(n) =~= d.extra@);
}

proof fn lemma_labels_differ(p: Port, q: Port)
    requires
        peer_socket(p),
        label(p) == label(q),
    ensures
        peer_socket(q),
{
    let x = crate::text::dec_text(p.port as nat);
    let y = crate::text::dec_text(q.port as nat);
    crate::laws::texts::printed_number(p.port as nat);
    crate::laws::texts::printed_number(q.port as nat);
    reveal_strlit("/");
    assert("/"@ =~= seq!['/']);
    let s = p.proto@ + seq!['/'] + x;
    let t = q.proto@ + seq!['/'] + y;
    assert(s == t);
    let i = p.proto@.len() as int;
    let j = q.proto@.len() as int;
    assert(s[i] == '/');
    assert(t[j] == '/');
    assert(s.len() == i + 1 + x.len() && t.len() == j + 1 + y.len());
    if i < j {
        assert(s[j] == x[j - i - 1]);
        assert(x[j - i - 1] != '/');
    } else if j < i {
        assert(t[i] == y[i - j - 1]);
        assert(y[i - j - 1] != '/');
    }
    assert(i == j);
    assert(x =~= y) by {
        assert(x =~= s.skip(i + 1));
        assert(y =~= t.skip(j + 1));
    }
    assert(p.proto@ =~= s.take(i));
    assert(q.proto@ =~= t.take(j));
    assert(p.port == q.port);
}

/// With a WireGuard protocol declared, an undeclared listener on UDP from 30000
/// on never shows up by its label among the unclassified ones.
pub proof fn peer_sockets_are_not_listed(
    g: DriftGrid,
    protocols: Seq<DeclaredProtocol>,
    d: PortDrift,
    p: Port,
)
    requires
        crate::drift::drift_grid(g, protocols, d),
        wireguard_declared(protocols),
        peer_socket(p),
    ensures
        !crate::text::texts(g.unclassified@).contains(label(p)),
        d.extra@.contains(p) ==> g.wg_peers > 0,
{
    listeners_by_group(g, protocols, d);
    let rest = d.extra@.filter(|p: Port| !web_internal(p) && !peer_socket(p));
    let names = rest.map_values(|p: Port| label(p));
    if names.contains(label(p)) {
        let k = names.index_of(label(p));
        assert(label(rest[k]) == label(p));
        lemma_labels_differ(p, rest[k]);
        d.extra@.lemma_filter_pred(|p: Port| !web_internal(p) && !peer_socket(p), k);
        assert(false);
    }
    if d.extra@.contains(p) {
        let k = d.extra@.index_of(p);
        d.extra@.lemma_filter_contains(|p: Port| peer_socket(p), k);
    }
}

/// A declared protocol is marked exactly where one of its ports was not seen
/// listening; each of its ports is marked by whether it was. Nothing deviates
/// exactly where no declared port is silent and no listener undeclared.
pub proof fn silent_ports_are_marked(
    g: DriftGrid,
    protocols: Seq<DeclaredProtocol>,
    d: PortDrift,
    i: int,
    j: int,
)
    requires
        crate::drift::drift_grid(g, protocols, d),
        0 <= i < protocols.len(),
        0 <= j < protocols[i].ports@.len(),
    ensures
        g.rows@.len() == protocols.len(),
        g.rows@[i].listening@.len() == protocols[i].ports@.len(),
        g.rows@[i].listening@[j] <==> crate::ports::keys(d.observed@).contains(
            protocols[i].ports@[j].key(),
        ),
        !g.rows@[i].listening@[j] ==> g.rows@[i].warn,
        g.rows@[i].warn ==> exists|k: int|
            0 <= k < protocols[i].ports@.len() && !#[trigger] g.rows@[i].listening@[k],
        g.matches <==> d.missing@.len() == 0 && d.extra@.len() == 0,
        g.rows@[i].ports@ == crate::text::join_text(
            protocols[i].ports@.map_values(
                |p: Port| crate::text::dec_text(p.port as nat) + "/"@ + p.proto@,
            ),
            " · "@,
        ),
        g.missing@ == crate::text::join_text(d.missing@.map_values(|p: Port| label(p)), ", "@),
{
    let ks = crate::ports::keys(protocols[i].ports@);
    assert(crate::drift::drift_row(g.rows@[i], protocols[i], crate::ports::keys(d.observed@)));
    assert(ks[j] == protocols[i].ports@[j].key());
    if g.rows@[i].warn {
        let k = choose|k: int|
            0 <= k < ks.len() && !crate::ports::keys(d.observed@).contains(#[trigger] ks[k]);
        assert(!g.rows@[i].listening@[k]);
    }
    assert(ks.map_values(|k: crate::ports::PortKey| crate::drift::number_first(k))
        =~= protocols[i].ports@.map_values(
        |p: Port| crate::text::dec_text(p.port as nat) + "/"@ + p.proto@,
    ));
    assert(crate::ports::keys(d.missing@).map_values(
        |k: crate::ports::PortKey| crate::ports::label_text(k),
    ) =~= d.missing@.map_values(|p: Port| label(p)));
}

/// A port deviates in one of two ways: declared and not seen, or seen and not
/// declared. The SSH port on TCP never counts as undeclared.
pub proof fn ports_deviate_in_two_ways(
    d: PortDrift,
    seen: Seq<crate::ports::PortKey>,
    expected: Seq<crate::ports::PortKey>,
    ssh_port: u16,
    k: crate::ports::PortKey,
)
    requires
        crate::drift::port_drift(d, seen, expected, ssh_port),
    ensures
        crate::ports::keys(d.observed@).contains(k) <==> seen.contains(k),
        crate::ports::keys(d.missing@).contains(k) <==> expected.contains(k) && !seen.contains(k),
        crate::ports::keys(d.extra@).contains(k) <==> seen.contains(k) && !expected.contains(k)
            && !(k.0 == "tcp"@ && k.1 == ssh_port),
{
}

/// A list of ports is sorted by transport, then by number, without repetition.
pub proof fn ports_ascend(s: Seq<crate::ports::PortKey>, i: int, j: int)
    requires
        crate::ports::ascending(s),
        0 <= i < j < s.len(),
    ensures
        crate::order::lex_lt(s[i].0, s[j].0) || s[i].0 == s[j].0 && s[i].1 < s[j].1,
{
}

/// Reading a label: a transport without a slash, a slash, and a number of at
/// most 65535. Whatever has another shape names no port.
pub proof fn labels_name_ports(s: Seq<char>, k: crate::ports::PortKey)
    ensures
        crate::ports::labelled_port(s) == Some(k) <==> exists|d: Seq<char>|
            !k.0.contains('/') && s == #[trigger] (k.0 + seq!['/'] + d)
                && crate::text::parsed_number(d, 65535) == Some(k.1 as nat),
{
    let at = crate::ports::slash_from(s, 0);
    lemma_slash(s, 0);
    if crate::ports::labelled_port(s) == Some(k) {
        let d = s.skip(at + 1);
        assert(s =~= k.0 + seq!['/'] + d);
        crate::laws::texts::read_number(d, 65535, crate::text::parsed_number(d, 65535)->0);
    }
    if exists|d: Seq<char>|
        !k.0.contains('/') && s == #[trigger] (k.0 + seq!['/'] + d)
            && crate::text::parsed_number(d, 65535) == Some(k.1 as nat) {
        let d = choose|d: Seq<char>|
            !k.0.contains('/') && s == #[trigger] (k.0 + seq!['/'] + d)
                && crate::text::parsed_number(d, 65535) == Some(k.1 as nat);
        let n = k.0.len() as int;
        assert(s[n] == '/');
        if at < n {
            assert(k.0[at] == '/');
        }
        assert(at == n);
        assert(s.skip(at + 1) =~= d);
        assert(s.take(at) =~= k.0);
    }
}

proof fn lemma_slash(s: Seq<char>, i: int)
    requires
        0 <= i <= s.len(),
    ensures
        i <= crate::ports::slash_from(s, i) <= s.len(),
        forall|j: int| i <= j < crate::ports::slash_from(s, i) ==> #[trigger] s[j] != '/',
        crate::ports::slash_from(s, i) < s.len() ==> s[crate::ports::slash_from(s, i)] == '/',
    decreases s.len() - i,
{
    if i < s.len() && s[i] != '/' {
        lemma_slash(s, i + 1);
    }
}

/// The ports seen are those that some label names; no labels, no ports.
pub proof fn labels_give_the_ports_seen(
    labels: Seq<Seq<char>>,
    n: int,
    k: crate::ports::PortKey,
)
    requires
        0 <= n <= labels.len(),
    ensures
        crate::ports::labelled_ports(labels, n).contains(k) <==> exists|i: int|
            0 <= i < n && crate::ports::labelled_port(#[trigger] labels[i]) == Some(k),
        crate::drift::seen_ports(Some(labels)) == crate::ports::labelled_ports(
            labels,
            labels.len() as int,
        ),
        crate::drift::seen_ports(None).len() == 0,
    decreases n,
{
    if n > 0 {
        let here = crate::ports::labelled_ports(labels, n);
        let before = crate::ports::labelled_ports(labels, n - 1);
        labels_give_the_ports_seen(labels, n - 1, k);
        if before.contains(k) {
            let m = before.index_of(k);
            assert(here[m] == k);
        }
        if crate::ports::labelled_port(labels[n - 1]) == Some(k) {
            assert(here[here.len() - 1] == k);
        }
        if here.contains(k) {
            let m = here.index_of(k);
            if m < before.len() {
                assert(before[m] == k);
            }
        }
    }
}

/// User `i` is the last with this uuid.
pub open spec fn last_entry(users: Seq<RenderUser>, uuid: Seq<char>, i: int) -> bool {
    &&& 0 <= i < users.len()
    &&& users[i].uuid@ == uuid
    &&& forall|j: int| i < j < users.len() ==> (#[trigger] users[j]).uuid@ != uuid
}

proof fn lemma_last(users: Seq<RenderUser>, uuid: Seq<char>, n: int)
    requires
        0 <= n <= users.len(),
        forall|j: int| n <= j < users.len() ==> (#[trigger] users[j]).uuid@ != uuid,
    ensures
        crate::drift::last_with_uuid(users, uuid, n) is Some <==> exists|i: int| #[trigger]
            last_entry(users, uuid, i),
        forall|i: int| #[trigger]
            last_entry(users, uuid, i) ==> crate::drift::last_with_uuid(users, uuid, n) == Some(
                users[i].id@,
            ),
    decreases n,
{
    if n > 0 {
        if users[n - 1].uuid@ == uuid {
            assert(last_entry(users, uuid, n - 1));
            assert forall|i: int| #[trigger] last_entry(users, uuid, i) implies i == n - 1 by {
                if i < n - 1 {
                    assert(users[n - 1].uuid@ != uuid);
                }
            }
        } else {
            lemma_last(users, uuid, n - 1);
        }
    }
}

/// An orphan is a uuid that the node serves and no granted user has. It is
/// named after the last known user with that uuid, and nameless without one.
pub proof fn orphans_are_unaccounted_for(
    r: Seq<OrphanUuid>,
    node: Seq<Seq<char>>,
    granted: Seq<RenderUser>,
    all: Seq<RenderUser>,
    uuid: Seq<char>,
    i: int,
    at: int,
)
    requires
        crate::drift::orphans_of(r, node, granted, all),
    ensures
        (exists|k: int| 0 <= k < r.len() && (#[trigger] r[k]).uuid@ == uuid) <==> node.contains(
            uuid,
        ) && !(exists|k: int| 0 <= k < granted.len() && (#[trigger] granted[k]).uuid@ == uuid),
        0 <= i < r.len() ==> (r[i].name is Some <==> exists|k: int| #[trigger]
            last_entry(all, r[i].uuid@, k)),
        0 <= i < r.len() && last_entry(all, r[i].uuid@, at) ==> r[i].name is Some
            && r[i].name->0@ == all[at].id@,
        forall|a: int, b: int|
            0 <= a < b < r.len() ==> crate::order::lex_lt(
                (#[trigger] r[a]).uuid@,
                (#[trigger] r[b]).uuid@,
            ),
{
    let ids = r.map_values(|o: OrphanUuid| o.uuid@);
    let us = crate::drift::uuids(granted);
    assert(ids.contains(uuid) <==> node.contains(uuid) && !us.contains(uuid));
    if exists|k: int| 0 <= k < r.len() && (#[trigger] r[k]).uuid@ == uuid {
        let k = choose|k: int| 0 <= k < r.len() && (#[trigger] r[k]).uuid@ == uuid;
        assert(ids[k] == uuid);
    }
    if ids.contains(uuid) {
        let k = ids.index_of(uuid);
        assert(r[k].uuid@ == uuid);
    }
    if exists|k: int| 0 <= k < granted.len() && (#[trigger] granted[k]).uuid@ == uuid {
        let k = choose|k: int| 0 <= k < granted.len() && (#[trigger] granted[k]).uuid@ == uuid;
        assert(us[k] == uuid);
    }
    if us.contains(uuid) {
        let k = us.index_of(uuid);
        assert(granted[k].uuid@ == uuid);
    }
    if 0 <= i < r.len() {
        lemma_last(all, r[i].uuid@, all.len() as int);
        assert(crate::text::opt_string(r[i].name) == crate::drift::last_with_uuid(
            all,
            r[i].uuid@,
            all.len() as int,
        ));
    }
    assert forall|a: int, b: int| 0 <= a < b < r.len() implies crate::order::lex_lt(
        (#[trigger] r[a]).uuid@,
        (#[trigger] r[b]).uuid@,
    ) by {
        assert(ids[a] == r[a].uuid@ && ids[b] == r[b].uuid@);
    }
}

/// Without a probe there is no verdict; with one the verdict names both counts
/// unless both are zero.
pub proof fn verdict_names_both_counts(
    s: DriftSummary,
    missing: int,
    extra: int,
    have_probe: bool,
    base: Seq<char>,
)
    requires
        crate::drift::drift_summary(s, missing, extra, have_probe, base),
    ensures
        s is NoProbe <==> !have_probe,
        s is Match <==> have_probe && missing == 0 && extra == 0,
        s matches DriftSummary::Drift { missing: m, extra: x, href } ==> m == missing && x == extra
            && href@ == base + "/protocols#drift-detail"@,
{
}

} // verus!
