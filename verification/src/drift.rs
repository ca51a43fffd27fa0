//! Declared against observed: ports and user ids that a node serves.
use crate::json::read_texts;
use crate::lists::distinct_sorted;
use crate::ports::{
    copy_port, difference, has_port, parse_port_label, port_label, sorted_ports, Port,
};
use crate::share_links::RenderUser;
use crate::text::{cat2, cat3, contains, dec, join, same};
use vstd::prelude::*;

verus! {

/// The ports a protocol is expected to listen on: those it declares, none
/// where the registry does not know it.
pub fn expected_ports_for_protocol(declared: &Option<Vec<Port>>) -> (r: Vec<Port>)
    ensures
        crate::ports::keys(r@) == (match *declared {
            Some(ports) => crate::ports::keys(ports@),
            None => Seq::empty(),
        }),
{
    let mut r: Vec<Port> = Vec::new();
    match declared {
        None => {
            assert(crate::ports::keys(r@) =~= Seq::empty());
            r
        },
        Some(ports) => {
            let mut i: usize = 0;
            while i < ports.len()
                invariant
                    i <= ports.len(),
                    crate::ports::keys(r@) == crate::ports::keys(ports@).take(i as int),
                decreases ports.len() - i,
            {
                let ghost before = crate::ports::keys(r@);
                r.push(copy_port(&ports[i]));
                assert(crate::ports::keys(r@) =~= before.push(ports@[i as int].key()));
                assert(crate::ports::keys(ports@).take(i + 1) =~= crate::ports::keys(ports@).take(
                    i as int,
                ).push(ports@[i as int].key()));
                i = i + 1;
            }
            assert(crate::ports::keys(ports@).take(i as int) =~= crate::ports::keys(ports@));
            r
        },
    }
}

/// Declared against observed ports.
pub struct PortDrift {
    /// What the last probe saw listening.
    pub observed: Vec<Port>,
    /// Declared but silent.
    pub missing: Vec<Port>,
    /// Listening but undeclared.
    pub extra: Vec<Port>,
}

/// The ports among probe labels; none without labels.
pub open spec fn seen_ports(labels: Option<Seq<Seq<char>>>) -> Seq<crate::ports::PortKey> {
    match labels {
        Some(l) => crate::ports::labelled_ports(l, l.len() as int),
        None => Seq::empty(),
    }
}

/// `d` sets what is expected against what was seen. The SSH port is always
/// listening and never counts as undeclared.
pub open spec fn port_drift(
    d: PortDrift,
    seen: Seq<crate::ports::PortKey>,
    expected: Seq<crate::ports::PortKey>,
    ssh_port: u16,
) -> bool {
    &&& crate::ports::port_set(crate::ports::keys(d.observed@), seen)
    &&& crate::ports::difference_of(crate::ports::keys(d.missing@), expected, seen)
    &&& crate::ports::ascending(crate::ports::keys(d.extra@))
    &&& forall|k: crate::ports::PortKey| #[trigger]
        crate::ports::keys(d.extra@).contains(k) <==> seen.contains(k) && !expected.contains(k)
            && k != ("tcp"@, ssh_port)
}

/// The drift between the expected ports and those that the probe labels name.
pub fn drift_of_labels(
    labels: &Option<Vec<String>>,
    expected: &Vec<Port>,
    ssh_port: u16,
) -> (r: PortDrift)
    ensures
        port_drift(
            r,
            seen_ports(
                match *labels {
                    Some(l) => Some(crate::text::texts(l@)),
                    None => None,
                },
            ),
            crate::ports::keys(expected@),
            ssh_port,
        ),
{
    let mut seen: Vec<Port> = Vec::new();
    assert(crate::ports::keys(seen@) =~= Seq::empty());
    match labels {
        None => {},
        Some(l) => {
            let ghost names = crate::text::texts(l@);
            let mut i: usize = 0;
            while i < l.len()
                invariant
                    i <= l.len(),
                    names == crate::text::texts(l@),
                    crate::ports::keys(seen@) == crate::ports::labelled_ports(names, i as int),
                decreases l.len() - i,
            {
                let ghost before = crate::ports::keys(seen@);
                match parse_port_label(l[i].as_str()) {
                    Some(p) => {
                        let ghost key = p.key();
                        seen.push(p);
                        assert(crate::ports::keys(seen@) =~= before.push(key));
                    },
                    None => {},
                }
                i = i + 1;
            }
        },
    }
    let observed = sorted_ports(&seen);
    let wanted = sorted_ports(expected);
    let missing = difference(&wanted, &observed);
    let mut known: Vec<Port> = Vec::new();
    let mut i: usize = 0;
    while i < expected.len()
        invariant
            i <= expected.len(),
            crate::ports::keys(known@) == crate::ports::keys(expected@).take(i as int),
        decreases expected.len() - i,
    {
        let ghost before = crate::ports::keys(known@);
        known.push(copy_port(&expected[i]));
        assert(crate::ports::keys(known@) =~= before.push(expected@[i as int].key()));
        assert(crate::ports::keys(expected@).take(i + 1) =~= crate::ports::keys(expected@).take(
            i as int,
        ).push(expected@[i as int].key()));
        i = i + 1;
    }
    assert(crate::ports::keys(expected@).take(i as int) =~= crate::ports::keys(expected@));
    let ssh = Port { proto: "tcp".to_owned(), port: ssh_port };
    known.push(ssh);
    let extra = difference(&observed, &known);
    proof {
        let ke = crate::ports::keys(expected@);
        let kk = crate::ports::keys(known@);
        let key = ("tcp"@, ssh_port);
        assert(kk =~= ke.push(key));
        assert forall|k: crate::ports::PortKey| #[trigger]
            kk.contains(k) <==> ke.contains(k) || k == key by {
            if ke.contains(k) {
                assert(kk[ke.index_of(k)] == k);
            }
            assert(kk[ke.len() as int] == key);
        }
    }
    PortDrift { observed, missing, extra }
}

/// The drift between the expected ports and those of the last probe, stored
/// as a JSON list of labels.
pub fn drift_of_probe(
    listening_ports_json: Option<&str>,
    expected: &Vec<Port>,
    ssh_port: u16,
) -> (r: PortDrift)
    ensures
        port_drift(
            r,
            seen_ports(
                match listening_ports_json {
                    Some(j) => crate::json::json_texts(j@),
                    None => None,
                },
            ),
            crate::ports::keys(expected@),
            ssh_port,
        ),
{
    let labels = match listening_ports_json {
        Some(j) => read_texts(j),
        None => None,
    };
    drift_of_labels(&labels, expected, ssh_port)
}

/// There is no drift exactly when every port but SSH is declared if and only
/// if it was seen, and a declared SSH port was seen.
pub proof fn no_drift_iff_sets_match(
    d: PortDrift,
    seen: Seq<crate::ports::PortKey>,
    expected: Seq<crate::ports::PortKey>,
    ssh_port: u16,
)
    requires
        port_drift(d, seen, expected, ssh_port),
    ensures
        d.missing@.len() == 0 && d.extra@.len() == 0 <==> (forall|k: crate::ports::PortKey|
            #![trigger seen.contains(k)]
            #![trigger expected.contains(k)]
            (expected.contains(k) ==> seen.contains(k)) && (k != ("tcp"@, ssh_port)
                && seen.contains(k) ==> expected.contains(k))),
{
    let km = crate::ports::keys(d.missing@);
    let kx = crate::ports::keys(d.extra@);
    if d.missing@.len() == 0 && d.extra@.len() == 0 {
        assert forall|k: crate::ports::PortKey|
            #![trigger seen.contains(k)]
            #![trigger expected.contains(k)]
            (expected.contains(k) ==> seen.contains(k)) && (k != ("tcp"@, ssh_port)
                && seen.contains(k) ==> expected.contains(k)) by {
            assert(!km.contains(k));
            assert(!kx.contains(k));
        }
    } else if d.missing@.len() > 0 {
        assert(km.contains(km[0]));
        assert(expected.contains(km[0]) && !seen.contains(km[0]));
    } else {
        assert(kx.contains(kx[0]));
        assert(seen.contains(kx[0]) && !expected.contains(kx[0]));
    }
}

/// A user id served by a node that no grant accounts for.
pub struct OrphanUuid {
    pub uuid: String,
    /// The user it belongs to, if any is known.
    pub name: Option<String>,
}

/// The uuids of users.
pub open spec fn uuids(users: Seq<RenderUser>) -> Seq<Seq<char>> {
    users.map_values(|u: RenderUser| u.uuid@)
}

/// Id of the last of the first `n` users with this uuid.
pub open spec fn last_with_uuid(users: Seq<RenderUser>, uuid: Seq<char>, n: int) -> Option<
    Seq<char>,
>
    decreases n,
{
    if n <= 0 {
        None
    } else if users[n - 1].uuid@ == uuid {
        Some(users[n - 1].id@)
    } else {
        last_with_uuid(users, uuid, n - 1)
    }
}

/// `r` lists the uuids that the node serves and no grant accounts for, each
/// once, in ascending order, named where a user is known.
pub open spec fn orphans_of(
    r: Seq<OrphanUuid>,
    node: Seq<Seq<char>>,
    granted: Seq<RenderUser>,
    all: Seq<RenderUser>,
) -> bool {
    let ids = r.map_values(|o: OrphanUuid| o.uuid@);
    &&& forall|i: int, j: int|
        0 <= i < j < ids.len() ==> crate::order::lex_lt(#[trigger] ids[i], #[trigger] ids[j])
    &&& forall|u: Seq<char>| #[trigger]
        ids.contains(u) <==> node.contains(u) && !uuids(granted).contains(u)
    &&& forall|i: int|
        0 <= i < r.len() ==> crate::text::opt_string((#[trigger] r[i]).name) == last_with_uuid(
            all,
            r[i].uuid@,
            all.len() as int,
        )
}

fn has_uuid(users: &Vec<RenderUser>, uuid: &str) -> (r: bool)
    ensures
        r == uuids(users@).contains(uuid@),
{
    let mut i: usize = 0;
    while i < users.len()
        invariant
            i <= users.len(),
            forall|k: int| 0 <= k < i ==> uuids(users@)[k] != uuid@,
        decreases users.len() - i,
    {
        if same(users[i].uuid.as_str(), uuid) {
            assert(uuids(users@)[i as int] == uuid@);
            return true;
        }
        i = i + 1;
    }
    false
}

fn name_of(users: &Vec<RenderUser>, uuid: &str) -> (r: Option<String>)
    ensures
        crate::text::opt_string(r) == last_with_uuid(users@, uuid@, users@.len() as int),
{
    let mut i: usize = users.len();
    while i > 0
        invariant
            i <= users.len(),
            last_with_uuid(users@, uuid@, users@.len() as int) == last_with_uuid(
                users@,
                uuid@,
                i as int,
            ),
        decreases i,
    {
        if same(users[i - 1].uuid.as_str(), uuid) {
            return Some(users[i - 1].id.clone());
        }
        i = i - 1;
    }
    None
}

/// The uuids that a node serves and no granted user accounts for. Each is
/// named where it belongs to any known user.
pub fn compute_orphan_uuids(
    node_uuids: &Vec<String>,
    granted_users: &Vec<RenderUser>,
    all_users: &Vec<RenderUser>,
) -> (r: Vec<OrphanUuid>)
    ensures
        orphans_of(r@, crate::text::texts(node_uuids@), granted_users@, all_users@),
{
    let sorted = distinct_sorted(node_uuids);
    let ghost keys = crate::text::texts(sorted@);
    let ghost granted = uuids(granted_users@);
    let mut r: Vec<OrphanUuid> = Vec::new();
    let mut i: usize = 0;
    while i < sorted.len()
        invariant
            i <= sorted.len(),
            keys == crate::text::texts(sorted@),
            granted == uuids(granted_users@),
            crate::lists::sorted_set(keys, crate::text::texts(node_uuids@)),
            ({
                let ids = r@.map_values(|o: OrphanUuid| o.uuid@);
                &&& forall|i: int, j: int|
                    0 <= i < j < ids.len() ==> crate::order::lex_lt(
                        #[trigger] ids[i],
                        #[trigger] ids[j],
                    )
                &&& forall|u: Seq<char>| #[trigger]
                    ids.contains(u) <==> keys.take(i as int).contains(u) && !granted.contains(u)
            }),
            forall|k: int|
                0 <= k < r@.len() ==> crate::text::opt_string((#[trigger] r@[k]).name)
                    == last_with_uuid(all_users@, r@[k].uuid@, all_users@.len() as int),
        decreases sorted.len() - i,
    {
        let ghost before = r@.map_values(|o: OrphanUuid| o.uuid@);
        let ghost next = keys.take(i + 1);
        let ghost id = keys[i as int];
        proof {
            assert(next =~= keys.take(i as int).push(id));
            assert forall|u: Seq<char>| #[trigger]
                next.contains(u) <==> keys.take(i as int).contains(u) || u == id by {
                if keys.take(i as int).contains(u) {
                    assert(next[keys.take(i as int).index_of(u)] == u);
                }
                assert(next[i as int] == id);
            }
        }
        if !has_uuid(granted_users, sorted[i].as_str()) {
            r.push(
                OrphanUuid {
                    uuid: sorted[i].clone(),
                    name: name_of(all_users, sorted[i].as_str()),
                },
            );
            proof {
                let ids = r@.map_values(|o: OrphanUuid| o.uuid@);
                assert(ids =~= before.push(id));
                assert forall|x: int, y: int| 0 <= x < y < ids.len() implies crate::order::lex_lt(
                    #[trigger] ids[x],
                    #[trigger] ids[y],
                ) by {
                    if y == ids.len() - 1 {
                        assert(before.contains(before[x]));
                        let p = keys.take(i as int).index_of(before[x]);
                        assert(crate::order::lex_lt(keys[p], keys[i as int]));
                    } else {
                        assert(ids[x] == before[x] && ids[y] == before[y]);
                    }
                }
                assert forall|u: Seq<char>| #[trigger]
                    ids.contains(u) <==> before.contains(u) || u == id by {
                    if before.contains(u) {
                        assert(ids[before.index_of(u)] == u);
                    }
                    assert(ids[before.len() as int] == id);
                }
            }
        }
        i = i + 1;
    }
    assert(keys.take(i as int) =~= keys);
    r
}

/// What reading a node's live configuration gave.
pub enum ConfigRead {
    /// It was read and parsed; these user ids are in it.
    Users(Vec<String>),
    /// What was read is no configuration.
    Unparsable,
    /// The node could not be read.
    Failed,
    /// The node did not answer in time.
    TimedOut,
}

/// Outcome of reading a node's live configuration.
pub enum DriftLiveResult {
    /// It was read and parsed; `orphans` no grant accounts for.
    Read { orphans: Vec<OrphanUuid> },
    /// The configuration could not be read or parsed.
    Unavailable,
}

/// The outcome of a read. Every failure is unavailable, an unparsable
/// configuration too: only one that was read and parsed is compared with the
/// grants.
pub fn load_drift_live(
    read: &ConfigRead,
    granted_users: &Vec<RenderUser>,
    all_users: &Vec<RenderUser>,
) -> (r: DriftLiveResult)
    ensures
        match *read {
            ConfigRead::Users(ids) => r matches DriftLiveResult::Read { orphans } && orphans_of(
                orphans@,
                crate::text::texts(ids@),
                granted_users@,
                all_users@,
            ),
            _ => r is Unavailable,
        },
{
    match read {
        ConfigRead::Users(ids) => DriftLiveResult::Read {
            orphans: compute_orphan_uuids(ids, granted_users, all_users),
        },
        _ => DriftLiveResult::Unavailable,
    }
}

/// The drift-detail card.
pub enum DriftDetail {
    /// Nothing was read; a link arms the read.
    Arm { href: String },
    /// The orphans of the read are listed.
    Orphans,
    /// The read found no orphans.
    Clean,
    /// The read failed or was refused.
    Unreadable,
}

/// The drift-detail card of the server with path-encoded id `sid_enc`.
pub fn server_detail_drift_detail_section(
    sid_enc: &str,
    drift_live: &Option<DriftLiveResult>,
    armed: bool,
) -> (r: DriftDetail)
    ensures
        if !armed {
            r matches DriftDetail::Arm { href } && href@ == "/admin/servers/"@ + sid_enc@
                + "/protocols?drift=live#drift-detail"@
        } else {
            match *drift_live {
                Some(DriftLiveResult::Read { orphans }) => if orphans@.len() > 0 {
                    r is Orphans
                } else {
                    r is Clean
                },
                _ => r is Unreadable,
            }
        },
{
    if !armed {
        return DriftDetail::Arm {
            href: cat3("/admin/servers/", sid_enc, "/protocols?drift=live#drift-detail"),
        };
    }
    match drift_live {
        Some(DriftLiveResult::Read { orphans }) => if orphans.len() > 0 {
            DriftDetail::Orphans
        } else {
            DriftDetail::Clean
        },
        _ => DriftDetail::Unreadable,
    }
}

/// The drift verdict of the status tab.
pub enum DriftSummary {
    NoProbe,
    Match,
    Drift {
        /// Declared but silent.
        missing: usize,
        /// Listening but undeclared.
        extra: usize,
        /// Where the full grid is.
        href: String,
    },
}

/// `s` is the verdict on `missing` silent and `extra` undeclared ports.
pub open spec fn drift_summary(
    s: DriftSummary,
    missing: int,
    extra: int,
    have_probe: bool,
    base: Seq<char>,
) -> bool {
    if !have_probe {
        s is NoProbe
    } else if missing == 0 && extra == 0 {
        s is Match
    } else {
        s matches DriftSummary::Drift { missing: m, extra: x, href } && m == missing && x == extra
            && href@ == base + "/protocols#drift-detail"@
    }
}

/// The drift verdict of the status tab of the server page at `base`.
pub fn server_detail_drift_summary(
    missing: &Vec<Port>,
    extra: &Vec<Port>,
    have_probe: bool,
    base: &str,
) -> (r: DriftSummary)
    ensures
        drift_summary(r, missing@.len() as int, extra@.len() as int, have_probe, base@),
{
    if !have_probe {
        DriftSummary::NoProbe
    } else if missing.len() == 0 && extra.len() == 0 {
        DriftSummary::Match
    } else {
        DriftSummary::Drift {
            missing: missing.len(),
            extra: extra.len(),
            href: cat2(base, "/protocols#drift-detail"),
        }
    }
}

/// What an undeclared listener probably is.
#[derive(Clone, Copy, PartialEq, Eq, Structural, Debug)]
pub enum PortClass {
    /// Internals of the web server.
    Caddy,
    /// The socket of one WireGuard peer.
    WgPeer,
    Unclassified,
}

/// What the undeclared listener `k` probably is.
pub open spec fn port_class(k: crate::ports::PortKey, has_wg: bool) -> PortClass {
    if k.0 == "tcp"@ && (k.1 == 2019 || k.1 == 80) {
        PortClass::Caddy
    } else if has_wg && k.0 == "udp"@ && k.1 >= 30000 {
        PortClass::WgPeer
    } else {
        PortClass::Unclassified
    }
}

/// Labels of the first `n` listeners of a class, in order.
pub open spec fn labels_of_class(
    extra: Seq<Port>,
    class: PortClass,
    has_wg: bool,
    n: int,
) -> Seq<Seq<char>>
    decreases n,
{
    if n <= 0 {
        Seq::empty()
    } else {
        let before = labels_of_class(extra, class, has_wg, n - 1);
        if port_class(extra[n - 1].key(), has_wg) == class {
            before.push(crate::ports::label_text(extra[n - 1].key()))
        } else {
            before
        }
    }
}

/// Whether a protocol is WireGuard-based, by its id.
pub open spec fn wg_based(id: Seq<char>) -> bool {
    crate::text::occurs_in(id, "wireguard"@) || crate::text::occurs_in(id, "amnezia"@)
}

/// A declared protocol and the ports it is expected on.
pub struct DeclaredProtocol {
    pub id: String,
    pub ports: Vec<Port>,
}

/// Row of a declared protocol.
pub struct DriftRow {
    /// The expected ports as `number/proto`.
    pub ports: String,
    /// Whether each of them is listening.
    pub listening: Vec<bool>,
    /// Some expected port is silent.
    pub warn: bool,
}

/// The drift grid.
pub struct DriftGrid {
    pub rows: Vec<DriftRow>,
    /// The silent ports, comma-separated.
    pub missing: String,
    /// Undeclared listeners in all.
    pub extra: usize,
    /// Undeclared listeners that are WireGuard peers.
    pub wg_peers: usize,
    pub caddy_internals: Vec<String>,
    pub unclassified: Vec<String>,
    /// Nothing is silent and nothing undeclared.
    pub matches: bool,
}

/// The drift section of the protocols tab.
pub enum DriftSection {
    NoProbe,
    Grid(DriftGrid),
}

/// A port as `number/proto`.
pub open spec fn number_first(k: crate::ports::PortKey) -> Seq<char> {
    crate::text::dec_text(k.1 as nat) + "/"@ + k.0
}

/// `r` is the row of protocol `p`.
pub open spec fn drift_row(
    r: DriftRow,
    p: DeclaredProtocol,
    observed: Seq<crate::ports::PortKey>,
) -> bool {
    let ks = crate::ports::keys(p.ports@);
    &&& r.ports@ == crate::text::join_text(
        ks.map_values(|k: crate::ports::PortKey| number_first(k)),
        " · "@,
    )
    &&& r.listening@ == ks.map_values(|k: crate::ports::PortKey| observed.contains(k))
    &&& r.warn == (exists|i: int| 0 <= i < ks.len() && !observed.contains(#[trigger] ks[i]))
}

/// `g` shows the declared protocols against the drift `d`.
pub open spec fn drift_grid(g: DriftGrid, protocols: Seq<DeclaredProtocol>, d: PortDrift) -> bool {
    let has_wg = exists|i: int| 0 <= i < protocols.len() && wg_based((#[trigger] protocols[i]).id@);
    let extra = d.extra@;
    let n = extra.len() as int;
    &&& g.rows@.len() == protocols.len()
    &&& forall|i: int|
        0 <= i < protocols.len() ==> drift_row(
            #[trigger] g.rows@[i],
            protocols[i],
            crate::ports::keys(d.observed@),
        )
    &&& g.missing@ == crate::text::join_text(
        crate::ports::keys(d.missing@).map_values(
            |k: crate::ports::PortKey| crate::ports::label_text(k),
        ),
        ", "@,
    )
    &&& g.extra == n
    &&& g.wg_peers == labels_of_class(extra, PortClass::WgPeer, has_wg, n).len()
    &&& crate::text::texts(g.caddy_internals@) == labels_of_class(
        extra,
        PortClass::Caddy,
        has_wg,
        n,
    )
    &&& crate::text::texts(g.unclassified@) == labels_of_class(
        extra,
        PortClass::Unclassified,
        has_wg,
        n,
    )
    &&& g.matches == (d.missing@.len() == 0 && n == 0)
}

fn row_of(p: &DeclaredProtocol, observed: &Vec<Port>) -> (r: DriftRow)
    ensures
        drift_row(r, *p, crate::ports::keys(observed@)),
{
    let ghost ks = crate::ports::keys(p.ports@);
    let ghost seen = crate::ports::keys(observed@);
    let ghost show = |k: crate::ports::PortKey| number_first(k);
    let ghost up = |k: crate::ports::PortKey| seen.contains(k);
    let mut labels: Vec<String> = Vec::new();
    let mut listening: Vec<bool> = Vec::new();
    let mut warn = false;
    let mut i: usize = 0;
    while i < p.ports.len()
        invariant
            i <= p.ports.len(),
            ks == crate::ports::keys(p.ports@),
            seen == crate::ports::keys(observed@),
            labels@.len() == i,
            listening@.len() == i,
            forall|j: int| 0 <= j < i ==> (#[trigger] labels@[j])@ == number_first(ks[j]),
            forall|j: int| 0 <= j < i ==> #[trigger] listening@[j] == seen.contains(ks[j]),
            warn == (exists|j: int| 0 <= j < i && !seen.contains(#[trigger] ks[j])),
        decreases p.ports.len() - i,
    {
        let port = &p.ports[i];
        assert(ks[i as int] == port.key());
        let n = dec(port.port as u64);
        labels.push(cat3(n.as_str(), "/", port.proto.as_str()));
        let heard = has_port(observed, port);
        listening.push(heard);
        if !heard {
            assert(!seen.contains(ks[i as int]));
            warn = true;
        }
        i = i + 1;
    }
    assert(crate::text::texts(labels@) =~= ks.map_values(show));
    assert(listening@ =~= ks.map_values(up));
    DriftRow { ports: join(&labels, " · "), listening, warn }
}

/// The grid of declared protocols, their ports, and the undeclared listeners
/// by class.
pub fn server_detail_drift_section(
    protocols: &Vec<DeclaredProtocol>,
    drift: &PortDrift,
    have_probe: bool,
) -> (r: DriftSection)
    ensures
        match r {
            DriftSection::NoProbe => !have_probe,
            DriftSection::Grid(g) => have_probe && drift_grid(g, protocols@, *drift),
        },
{
    if !have_probe {
        return DriftSection::NoProbe;
    }
    let mut has_wg = false;
    let mut rows: Vec<DriftRow> = Vec::new();
    let mut i: usize = 0;
    while i < protocols.len()
        invariant
            i <= protocols.len(),
            rows@.len() == i,
            has_wg == (exists|j: int| 0 <= j < i && wg_based((#[trigger] protocols@[j]).id@)),
            forall|j: int|
                0 <= j < i ==> drift_row(
                    #[trigger] rows@[j],
                    protocols@[j],
                    crate::ports::keys(drift.observed@),
                ),
        decreases protocols.len() - i,
    {
        let id = protocols[i].id.as_str();
        if contains(id, "wireguard") || contains(id, "amnezia") {
            assert(wg_based(protocols@[i as int].id@));
            has_wg = true;
        }
        rows.push(row_of(&protocols[i], &drift.observed));
        i = i + 1;
    }
    let extra = &drift.extra;
    let mut wg_peers: usize = 0;
    let mut caddy_internals: Vec<String> = Vec::new();
    let mut unclassified: Vec<String> = Vec::new();
    let mut i: usize = 0;
    assert(crate::text::texts(caddy_internals@) =~= Seq::empty());
    assert(crate::text::texts(unclassified@) =~= Seq::empty());
    while i < extra.len()
        invariant
            i <= extra.len(),
            wg_peers <= i,
            wg_peers == labels_of_class(extra@, PortClass::WgPeer, has_wg, i as int).len(),
            crate::text::texts(caddy_internals@) == labels_of_class(
                extra@,
                PortClass::Caddy,
                has_wg,
                i as int,
            ),
            crate::text::texts(unclassified@) == labels_of_class(
                extra@,
                PortClass::Unclassified,
                has_wg,
                i as int,
            ),
        decreases extra.len() - i,
    {
        let p = &extra[i];
        let proto = p.proto.as_str();
        let ghost caddy_before = crate::text::texts(caddy_internals@);
        let ghost rest_before = crate::text::texts(unclassified@);
        if same(proto, "tcp") && (p.port == 2019 || p.port == 80) {
            caddy_internals.push(port_label(p));
            assert(crate::text::texts(caddy_internals@) =~= caddy_before.push(
                crate::ports::label_text(p.key()),
            ));
        } else if has_wg && same(proto, "udp") && p.port >= 30000 {
            wg_peers = wg_peers + 1;
        } else {
            unclassified.push(port_label(p));
            assert(crate::text::texts(unclassified@) =~= rest_before.push(
                crate::ports::label_text(p.key()),
            ));
        }
        i = i + 1;
    }
    let mut silent: Vec<String> = Vec::new();
    let ghost missing = crate::ports::keys(drift.missing@);
    let ghost show = |k: crate::ports::PortKey| crate::ports::label_text(k);
    let mut i: usize = 0;
    while i < drift.missing.len()
        invariant
            i <= drift.missing.len(),
            missing == crate::ports::keys(drift.missing@),
            silent@.len() == i,
            forall|j: int|
                0 <= j < i ==> (#[trigger] silent@[j])@ == crate::ports::label_text(missing[j]),
        decreases drift.missing.len() - i,
    {
        silent.push(port_label(&drift.missing[i]));
        i = i + 1;
    }
    assert(crate::text::texts(silent@) =~= missing.map_values(show));
    DriftSection::Grid(
        DriftGrid {
            rows,
            missing: join(&silent, ", "),
            extra: extra.len(),
            wg_peers,
            caddy_internals,
            unclassified,
            matches: drift.missing.len() == 0 && extra.len() == 0,
        },
    )
}

proof fn lemma_classes_partition(extra: Seq<Port>, has_wg: bool, n: int)
    requires
        0 <= n <= extra.len(),
    ensures
        labels_of_class(extra, PortClass::WgPeer, has_wg, n).len() + labels_of_class(
            extra,
            PortClass::Caddy,
            has_wg,
            n,
        ).len() + labels_of_class(extra, PortClass::Unclassified, has_wg, n).len() == n,
    decreases n,
{
    if n > 0 {
        lemma_classes_partition(extra, has_wg, n - 1);
    }
}

/// The status verdict and the full grid agree on the counts, and the groups
/// of the grid add up to the undeclared listeners.
pub proof fn drift_views_agree(
    s: DriftSummary,
    g: DriftGrid,
    protocols: Seq<DeclaredProtocol>,
    d: PortDrift,
    base: Seq<char>,
)
    requires
        drift_summary(s, d.missing@.len() as int, d.extra@.len() as int, true, base),
        drift_grid(g, protocols, d),
    ensures
        s is Match <==> g.matches,
        s matches DriftSummary::Drift { missing, extra, href } ==> extra == g.extra,
        g.wg_peers + g.caddy_internals@.len() + g.unclassified@.len() == g.extra,
{
    let has_wg = exists|i: int| 0 <= i < protocols.len() && wg_based((#[trigger] protocols[i]).id@);
    lemma_classes_partition(d.extra@, has_wg, d.extra@.len() as int);
    assert(crate::text::texts(g.caddy_internals@).len() == g.caddy_internals@.len());
    assert(crate::text::texts(g.unclassified@).len() == g.unclassified@.len());
}

} // verus!
