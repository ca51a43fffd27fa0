//! Laws of single answers, over what the functions return.
use crate::activity::{
    bootstrap_record, last_deploy, server_detail_gap_section, server_detail_live_activity_section,
    server_detail_live_connections_section, server_detail_traffic_section,
    server_detail_traffic_section_at, AuditEntry, GapSection, LiveConnections,
    ServerTrafficSection, SourceFetches, TrafficBreakdown,
};
use crate::drift::{
    compute_orphan_uuids, drift_of_labels, drift_of_probe, expected_ports_for_protocol,
    load_drift_live, server_detail_drift_detail_section, server_detail_drift_summary, ConfigRead,
    DriftDetail, DriftLiveResult, DriftSummary, OrphanUuid, PortDrift,
};
use crate::fleet::{fleet_sums_fit, monitoring, monitoring_at, FleetFacts, FleetHealth};
use crate::locale::Locale;
use crate::lookup::{fleet_lookup, server_lookup, LookupReply, ServerLookup};
use crate::origins::{
    classify_reserved_ip, format_origin_ts, ip_geo_fallback, origin_ts, ua_clusters_section,
    ua_verdict, user_is_likely_shared, user_source_ips_section, user_subscription_origins_section,
    GeoCell, GeoEntry, IpAddress, OriginTime, SourceIps, SubDeviceFp, SubOriginAsn,
    SubOriginCountry, SubOriginIp, SubscriptionOrigins, UaCluster, UaClusters, UaVerdict,
    VpnUserSourceIpRow,
};
use crate::ports::Port;
use crate::presence::{
    humanize_since, humanize_since_at, unresolved_sources, LiveConnection, LiveSnapshot,
};
use crate::redeploy::{redeploy_ok, spawn_user_servers_redeploy};
use crate::share_links::RenderUser;
use crate::time::UtcTime;
use crate::traffic::{VpnSparklineWindow, VpnStatsRow};
use vstd::prelude::*;

verus! {

/// The bytes of a server are those of both directions together.
pub proof fn both_directions_count(up: u64, down: u64, r: u64)
    requires
        call_ensures(server_detail_live_activity_section, (up, down), r),
    ensures
        up + down <= u64::MAX ==> r == up + down,
        up + down > u64::MAX ==> r == u64::MAX,
{
}

/// The accounting takes two samples, and stands out from 50 % on.
pub proof fn accounting_takes_two_samples(t: &TrafficBreakdown, r: GapSection)
    requires
        call_ensures(server_detail_gap_section, (t,), r),
    ensures
        r is NoData <==> t.nic_samples <= 1,
        r matches GapSection::Shown { pct, colour, iface } ==> {
            &&& pct == crate::activity::gap_pct(t.gap_bytes, t.nic_total_bytes)
            &&& pct >= 50 ==> colour@ == "var(--acc)"@
            &&& pct < 50 ==> colour@ == "var(--ink)"@
            &&& t.nic_iface is Some ==> iface@ == t.nic_iface->0@
            &&& t.nic_iface is None ==> iface@ == "?"@
        },
{
}

/// Every top source of a snapshot gets its probable user; without a snapshot
/// there is nothing to show.
pub proof fn every_top_source_gets_its_user(
    snapshot: &Option<Vec<LiveConnection>>,
    top: &Vec<String>,
    map: &Vec<SourceFetches>,
    lang: Locale,
    r: LiveConnections,
    i: int,
)
    requires
        call_ensures(server_detail_live_connections_section, (snapshot, top, map, lang), r),
    ensures
        r is NoSnapshot <==> *snapshot is None,
        r matches LiveConnections::Shown { total, likely } ==> (*snapshot matches Some(cs) && {
            &&& total == cs@.len()
            &&& likely@.len() == top@.len()
            &&& 0 <= i < top@.len() ==> crate::activity::likely_user(
                likely@[i],
                top@[i]@,
                cs@,
                map@,
                lang,
            )
        }),
{
}

/// The traffic of a server is that of its rows, at the instant given and by the
/// clock.
pub proof fn traffic_of_the_rows(
    rows: &Vec<VpnStatsRow>,
    w: VpnSparklineWindow,
    sid_enc: &str,
    lang: Locale,
    now: UtcTime,
    r: ServerTrafficSection,
    q: ServerTrafficSection,
)
    requires
        call_ensures(server_detail_traffic_section_at, (rows, w, sid_enc, lang, now), r),
        call_ensures(server_detail_traffic_section, (rows, w, sid_enc, lang), q),
    ensures
        crate::activity::server_traffic_section(r, rows@, w, sid_enc@, lang, now),
        exists|t: UtcTime|
            0 <= t.seconds() && #[trigger] crate::activity::server_traffic_section(
                q,
                rows@,
                w,
                sid_enc@,
                lang,
                t,
            ),
{
}

/// The newest deploy and the bootstrap are each the first entry of their kind.
pub proof fn first_entry_of_its_kind(
    rows: &Vec<AuditEntry>,
    d: Option<usize>,
    b: Option<usize>,
    k: int,
)
    requires
        call_ensures(last_deploy, (rows,), d),
        call_ensures(bootstrap_record, (rows,), b),
        0 <= k < rows@.len(),
    ensures
        d matches Some(i) ==> i < rows@.len() && rows@[i as int].action@ == "server.deploy"@,
        rows@[k].action@ == "server.deploy"@ ==> d is Some && d->0 <= k,
        b matches Some(i) ==> i < rows@.len() && crate::activity::is_bootstrap(
            rows@[i as int].action@,
        ),
        crate::activity::is_bootstrap(rows@[k].action@) ==> b is Some && b->0 <= k,
{
}

/// A protocol that the registry does not know is expected on no port, any other
/// on those it declares.
pub proof fn unknown_protocols_expect_no_port(declared: &Option<Vec<Port>>, r: Vec<Port>, i: int)
    requires
        call_ensures(expected_ports_for_protocol, (declared,), r),
    ensures
        *declared is None ==> r@.len() == 0,
        *declared matches Some(v) ==> r@.len() == v@.len() && (0 <= i < v@.len() ==> r@[i].proto@
            == v@[i].proto@ && r@[i].port == v@[i].port),
{
    if let Some(v) = *declared {
        assert(crate::ports::keys(r@).len() == crate::ports::keys(v@).len());
        if 0 <= i < v@.len() {
            assert(crate::ports::keys(r@)[i] == crate::ports::keys(v@)[i]);
        }
    } else {
        assert(crate::ports::keys(r@).len() == 0);
    }
}

/// A port deviates where it is declared and no label names it, or where a label
/// names it and it is not declared, SSH aside.
pub proof fn labels_against_declared_ports(
    labels: &Option<Vec<String>>,
    expected: &Vec<Port>,
    ssh_port: u16,
    d: PortDrift,
    k: crate::ports::PortKey,
)
    requires
        call_ensures(drift_of_labels, (labels, expected, ssh_port), d),
    ensures
        ({
            let seen = *labels is Some && exists|i: int|
                0 <= i < labels->0@.len() && crate::ports::labelled_port(
                    (#[trigger] labels->0@[i])@,
                ) == Some(k);
            let declared = exists|i: int|
                0 <= i < expected@.len() && (#[trigger] expected@[i]).proto@ == k.0
                    && expected@[i].port == k.1;
            &&& crate::ports::keys(d.observed@).contains(k) <==> seen
            &&& crate::ports::keys(d.missing@).contains(k) <==> declared && !seen
            &&& crate::ports::keys(d.extra@).contains(k) <==> seen && !declared && !(k.0 == "tcp"@
                && k.1 == ssh_port)
        }),
{
    let ks = crate::ports::keys(expected@);
    let seen = crate::drift::seen_ports(
        match *labels {
            Some(l) => Some(crate::text::texts(l@)),
            None => None,
        },
    );
    crate::laws::drift::ports_deviate_in_two_ways(d, seen, ks, ssh_port, k);
    if ks.contains(k) {
        let i = ks.index_of(k);
        assert(expected@[i].key() == k);
    }
    if exists|i: int|
        0 <= i < expected@.len() && (#[trigger] expected@[i]).proto@ == k.0 && expected@[i].port
            == k.1 {
        let i = choose|i: int|
            0 <= i < expected@.len() && (#[trigger] expected@[i]).proto@ == k.0 && expected@[i].port
                == k.1;
        assert(ks[i] == k);
    }
    if let Some(l) = *labels {
        let t = crate::text::texts(l@);
        crate::laws::drift::labels_give_the_ports_seen(t, t.len() as int, k);
        if seen.contains(k) {
            let i = choose|i: int|
                0 <= i < t.len() && crate::ports::labelled_port(#[trigger] t[i]) == Some(k);
            assert(crate::ports::labelled_port(l@[i]@) == Some(k));
        }
        if exists|i: int|
            0 <= i < l@.len() && crate::ports::labelled_port((#[trigger] l@[i])@) == Some(k) {
            let i = choose|i: int|
                0 <= i < l@.len() && crate::ports::labelled_port((#[trigger] l@[i])@) == Some(k);
            assert(crate::ports::labelled_port(t[i]) == Some(k));
        }
    }
}

/// The drift of a probe is that of the labels in its stored list, of none where
/// there is no list.
pub proof fn drift_of_a_stored_list(
    json: Option<&str>,
    expected: &Vec<Port>,
    ssh_port: u16,
    d: PortDrift,
)
    requires
        call_ensures(drift_of_probe, (json, expected, ssh_port), d),
    ensures
        json matches Some(j) ==> crate::drift::port_drift(
            d,
            crate::drift::seen_ports(crate::json::json_texts(j@)),
            crate::ports::keys(expected@),
            ssh_port,
        ),
        json is None ==> d.observed@.len() == 0 && d.extra@.len() == 0,
{
    if json is None {
        let o = crate::ports::keys(d.observed@);
        let e = crate::ports::keys(d.extra@);
        if o.len() > 0 {
            assert(o.contains(o[0]));
        }
        if e.len() > 0 {
            assert(e.contains(e[0]));
        }
    }
}

/// Only a configuration that was read and parsed is compared with the grants.
pub proof fn only_what_was_read_is_compared(
    read: &ConfigRead,
    granted: &Vec<RenderUser>,
    all: &Vec<RenderUser>,
    r: DriftLiveResult,
    nodes: &Vec<String>,
    o: Vec<OrphanUuid>,
)
    requires
        call_ensures(load_drift_live, (read, granted, all), r),
        call_ensures(compute_orphan_uuids, (nodes, granted, all), o),
    ensures
        r is Read <==> *read is Users,
        *read matches ConfigRead::Users(ids) ==> (r matches DriftLiveResult::Read { orphans }
            && crate::drift::orphans_of(
            orphans@,
            crate::text::texts(ids@),
            granted@,
            all@,
        )),
        crate::drift::orphans_of(o@, crate::text::texts(nodes@), granted@, all@),
{
}

/// Nothing is read before it is asked for; what was read is clean without
/// orphans, and what could not be read says so.
pub proof fn detail_follows_the_read(
    sid_enc: &str,
    live: &Option<DriftLiveResult>,
    armed: bool,
    r: DriftDetail,
)
    requires
        call_ensures(server_detail_drift_detail_section, (sid_enc, live, armed), r),
    ensures
        r is Arm <==> !armed,
        r matches DriftDetail::Arm { href } ==> href@ == "/admin/servers/"@ + sid_enc@
            + "/protocols?drift=live#drift-detail"@,
        r is Orphans <==> armed && (*live matches Some(DriftLiveResult::Read { orphans })
            && orphans@.len() > 0),
        r is Clean <==> armed && (*live matches Some(DriftLiveResult::Read { orphans })
            && orphans@.len() == 0),
        r is Unreadable <==> armed && (*live is None || *live == Some(
            DriftLiveResult::Unavailable,
        )),
{
}

/// The verdict counts both lists of ports.
pub proof fn verdict_counts_both_lists(
    missing: &Vec<Port>,
    extra: &Vec<Port>,
    have_probe: bool,
    base: &str,
    s: DriftSummary,
)
    requires
        call_ensures(server_detail_drift_summary, (missing, extra, have_probe, base), s),
    ensures
        s is NoProbe <==> !have_probe,
        s is Match <==> have_probe && missing@.len() == 0 && extra@.len() == 0,
        s matches DriftSummary::Drift { missing: m, extra: x, href } ==> m == missing@.len() && x
            == extra@.len() && href@ == base@ + "/protocols#drift-detail"@,
{
}

/// The monitoring page is that of the facts, at the instant given and by the
/// clock, wherever its sums fit.
pub proof fn monitoring_of_the_facts(
    f: &FleetFacts,
    lang: Locale,
    now: UtcTime,
    v: FleetHealth,
    q: FleetHealth,
    fits: bool,
)
    requires
        call_ensures(monitoring_at, (f, lang, now), v),
        call_ensures(monitoring, (f, lang), q),
        call_ensures(fleet_sums_fit, (f,), fits),
    ensures
        crate::fleet::fleet_health(v, *f, lang, now),
        exists|t: UtcTime| 0 <= t.seconds() && #[trigger] crate::fleet::fleet_health(q, *f, lang, t),
        fits <==> crate::fleet::alerts_open(f.alerts@, f.alerts@.len() as int) <= u64::MAX
            && crate::fleet::day_probes(f.nodes@, f.nodes@.len() as int) <= u64::MAX,
{
}

/// A page is made for what was found and listed.
pub proof fn pages_for_what_was_found(
    found: &ServerLookup,
    id: &str,
    r: LookupReply,
    listed: bool,
    q: LookupReply,
)
    requires
        call_ensures(server_lookup, (found, id), r),
        call_ensures(fleet_lookup, (listed,), q),
    ensures
        r is Proceed <==> *found is Found,
        r is InternalError <==> *found is Failed,
        *found is Missing ==> (r matches LookupReply::NotFound(m) && m@ == "no such server '"@ + id@
            + "'"@),
        q is Proceed <==> listed,
        q is InternalError <==> !listed,
{
}

/// An address is classed by its octets or segments; what is no address has no
/// class. Without a recorded place it shows its class, or that it is unknown.
pub proof fn addresses_by_their_class(
    ip: Option<IpAddress>,
    lang: Locale,
    r: Option<&'static str>,
    c: GeoCell,
)
    requires
        call_ensures(classify_reserved_ip, (ip,), r),
        call_ensures(ip_geo_fallback, (ip, lang), c),
    ensures
        ip is None ==> r is None,
        ip matches Some(IpAddress::V4(o)) ==> r == crate::origins::reserved_v4(o@),
        ip matches Some(IpAddress::V6(s)) ==> r == crate::origins::reserved_v6(s@),
        c is Reserved <==> r is Some,
        c is Unknown <==> r is None,
        c matches GeoCell::Reserved(s) ==> r == Some(s),
        c matches GeoCell::Unknown(s) ==> (lang is En ==> s@ == "(unknown)"@),
{
}

/// A time that was read is shown as the instant, any other text as it stands.
pub proof fn unread_times_stand(
    raw: &str,
    read: Option<(i64, u32)>,
    r: OriginTime,
    q: OriginTime,
)
    requires
        call_ensures(origin_ts, (raw, read), r),
        call_ensures(format_origin_ts, (raw,), q),
    ensures
        read matches Some(t) ==> (r matches OriginTime::At { secs, nanos } && secs == t.0 && nanos
            == t.1),
        read is None ==> (r matches OriginTime::Raw(s) && s@ == raw@),
        crate::origins::origin_time(q, raw@, crate::origins::rfc3339_instant(raw@)),
{
}

/// The origins are hidden exactly where nothing was fetched; the source
/// addresses have a place each, and those of no reserved class are counted.
pub proof fn origins_of_the_fetches(
    by_country: &Vec<SubOriginCountry>,
    by_asn: &Vec<SubOriginAsn>,
    by_ip: &Vec<SubOriginIp>,
    fp: &SubDeviceFp,
    lang: Locale,
    r: SubscriptionOrigins,
    rows: &Vec<VpnUserSourceIpRow>,
    geo: &Vec<GeoEntry>,
    s: SourceIps,
    i: int,
)
    requires
        call_ensures(
            user_subscription_origins_section,
            (by_country, by_asn, by_ip, fp, lang),
            r,
        ),
        call_ensures(user_source_ips_section, (rows, geo, lang), s),
    ensures
        r is Empty <==> by_country@.len() + by_asn@.len() + by_ip@.len() == 0,
        r matches SubscriptionOrigins::Shown(t) ==> crate::origins::origin_tables(
            t,
            by_country@,
            by_asn@,
            by_ip@,
            *fp,
            lang,
        ),
        s.places@.len() == rows@.len(),
        0 <= i < rows@.len() ==> crate::origins::source_place(s.places@[i], rows@[i], geo@, lang),
        s.distinct_public == rows@.filter(
            |r: VpnUserSourceIpRow| crate::origins::reserved_class(r.address) is None,
        ).len(),
{
    crate::laws::origins::reserved_addresses_do_not_count(rows@, rows@.len() as int);
    assert(rows@.take(rows@.len() as int) =~= rows@);
}

/// A URL is likely shared from three providers or, for one client, three
/// networks on; every cluster gets its own verdict.
pub proof fn sharing_from_three_on(
    asns: u64,
    clusters: &Vec<UaCluster>,
    r: bool,
    read: &Option<Vec<UaCluster>>,
    s: UaClusters,
    ips: u64,
    networks: u64,
    v: UaVerdict,
    i: int,
)
    requires
        call_ensures(user_is_likely_shared, (asns, clusters), r),
        call_ensures(ua_clusters_section, (read,), s),
        call_ensures(ua_verdict, (ips, networks), v),
    ensures
        r <==> asns > 2 || exists|k: int|
            0 <= k < clusters@.len() && (#[trigger] clusters@[k]).distinct_slash16 > 2,
        s is Unavailable <==> *read is None,
        s is Hidden <==> (*read matches Some(cs) && cs@.len() == 0),
        s matches UaClusters::Shown(vs) ==> (*read matches Some(cs) && vs@.len() == cs@.len() && (0
            <= i < cs@.len() ==> vs@[i] == crate::origins::verdict_of(
            cs@[i].distinct_ips,
            cs@[i].distinct_slash16,
        ))),
        v == UaVerdict::LikelyShared <==> networks > 2,
        v == UaVerdict::LikelyRoaming <==> networks < 2 && ips > 2,
{
    if exists|k: int| 0 <= k < clusters@.len() && (#[trigger] clusters@[k]).distinct_slash16 > 2 {
        let k = choose|k: int|
            0 <= k < clusters@.len() && (#[trigger] clusters@[k]).distinct_slash16 > 2;
        assert(crate::origins::verdict_of(
            clusters@[k].distinct_ips,
            clusters@[k].distinct_slash16,
        ) is LikelyShared);
    }
}

/// Addresses to resolve are those of connections that no node attributes, each
/// once; how long ago something was is told in whole units.
pub proof fn addresses_to_resolve(
    snaps: &Vec<LiveSnapshot>,
    r: Vec<String>,
    ip: Seq<char>,
    ts: UtcTime,
    lang: Locale,
    now: UtcTime,
    t: String,
    u: String,
)
    requires
        call_ensures(unresolved_sources, (snaps,), r),
        call_ensures(humanize_since_at, (ts, lang, now), t),
        call_ensures(humanize_since, (ts, lang), u),
    ensures
        crate::text::texts(r@).contains(ip) <==> exists|k: int, j: int|
            0 <= k < snaps@.len() && 0 <= j < snaps@[k].connections@.len()
                && crate::laws::presence::unresolved(#[trigger] snaps@[k].connections@[j], ip),
        crate::text::texts(r@).no_duplicates(),
        t@ == crate::presence::since_text(ts, lang, now),
        exists|n: UtcTime|
            0 <= n.seconds() && u@ == #[trigger] crate::presence::since_text(ts, lang, n),
{
    let n = snaps@.len() as int;
    crate::laws::presence::unattributed_addresses_are_resolved(snaps@, n, ip);
    crate::lists::sorted_set_is_distinct(
        crate::text::texts(r@),
        crate::presence::all_unattributed(snaps@, n),
    );
}

/// A redeploy is recorded exactly where there are servers, under the name of its
/// trigger, and as successful exactly without errors.
pub proof fn redeploys_are_recorded(
    servers: usize,
    trigger: &str,
    r: Option<&'static str>,
    errors: &Vec<String>,
    ok: bool,
)
    requires
        call_ensures(spawn_user_servers_redeploy, (servers, trigger), r),
        call_ensures(redeploy_ok, (errors,), ok),
    ensures
        r is Some <==> servers > 0,
        r matches Some(a) ==> ((exists|x: Seq<char>| trigger@ == #[trigger] ("server."@ + x)) ==> a@
            == "server.autodeploy"@) && (!(exists|x: Seq<char>|
            trigger@ == #[trigger] ("server."@ + x)) ==> a@ == "user.autodeploy"@),
        ok <==> errors@.len() == 0,
{
    crate::laws::frame::server_triggers_stay_with_servers(Seq::empty(), trigger@);
    if exists|x: Seq<char>| trigger@ == #[trigger] ("server."@ + x) {
        let x = choose|x: Seq<char>| trigger@ == #[trigger] ("server."@ + x);
        crate::laws::frame::server_triggers_stay_with_servers(x, trigger@);
    }
}

} // verus!
