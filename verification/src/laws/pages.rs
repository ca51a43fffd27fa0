//! Laws of the server page.
use crate::activity::{GapSection, LiveConnections};
use crate::drift::{DeclaredProtocol, DriftDetail, DriftLiveResult, DriftSection};
use crate::locale::Locale;
use crate::server_page::{
    Destination, ServerDetailQuery, ServerFacts, ServerPage, ServerTab, SetupChecks,
    SetupFacts, TabFacts, TabView,
};
use crate::telemetry::NodeHealth;
use crate::time::UtcTime;
use vstd::prelude::*;

verus! {

/// The head of the page tells up from down by the latest probe alone, lists the
/// kernels, and shows the probe exactly where there is one.
pub proof fn head_follows_the_latest_probe(
    p: ServerPage,
    f: ServerFacts,
    query: ServerDetailQuery,
    lang: Locale,
    now: UtcTime,
)
    requires
        crate::server_page::server_page(p, f, query, lang, now),
    ensures
        p.status is NoProbe <==> f.latest is None,
        p.status is Up <==> f.latest is Some && f.latest->0.sing_box_active == Some(true),
        p.status is Down <==> f.latest is Some && f.latest->0.sing_box_active == Some(false),
        p.status is Unknown <==> f.latest is Some && f.latest->0.sing_box_active is None,
        p.hero is Some <==> f.latest is Some,
        p.hero matches Some(v) ==> crate::telemetry::hero_of(
            v,
            f.latest->0,
            crate::text::opt_string(f.log_text),
            lang,
        ),
        p.pending_deploy == f.pending_deploy,
        p.kernels@ == crate::text::join_text(crate::text::texts(f.kernels@), "+"@),
        lang is En ==> p.kernels_noun@ == (if f.kernels@.len() == 1 {
            "kernel "@
        } else {
            "kernels "@
        }),
        lang is Ru ==> p.kernels_noun@ == (if f.kernels@.len() == 1 {
            "ядро "@
        } else {
            "ядра "@
        }),
{
}

/// Protocol `i` declares the port.
pub open spec fn declares(
    ps: Seq<DeclaredProtocol>,
    i: int,
    j: int,
    k: crate::ports::PortKey,
) -> bool {
    0 <= i < ps.len() && 0 <= j < ps[i].ports@.len() && ps[i].ports@[j].proto@ == k.0
        && ps[i].ports@[j].port == k.1
}

proof fn lemma_declared(ps: Seq<DeclaredProtocol>, n: int, k: crate::ports::PortKey)
    requires
        0 <= n <= ps.len(),
    ensures
        crate::server_page::declared_ports(ps, n).contains(k) <==> exists|i: int, j: int|
            i < n && #[trigger] declares(ps, i, j, k),
    decreases n,
{
    if n > 0 {
        let here = crate::server_page::declared_ports(ps, n);
        let before = crate::server_page::declared_ports(ps, n - 1);
        let own = crate::ports::keys(ps[n - 1].ports@);
        lemma_declared(ps, n - 1, k);
        if here.contains(k) {
            let m = here.index_of(k);
            if m < before.len() {
                assert(before[m] == k);
            } else {
                assert(own[m - before.len()] == k);
                assert(declares(ps, n - 1, m - before.len(), k));
            }
        }
        if exists|i: int, j: int| i < n && #[trigger] declares(ps, i, j, k) {
            let (i, j) = choose|i: int, j: int| i < n && #[trigger] declares(ps, i, j, k);
            if i == n - 1 {
                assert(own[j] == k);
                assert(here[before.len() + j] == k);
            } else {
                assert(before.contains(k));
                let m = before.index_of(k);
                assert(here[m] == k);
            }
        }
    }
}

/// A port is expected exactly where some declared protocol lists it: the page
/// counts it as silent where no label of the latest probe names it.
pub proof fn every_declared_port_is_expected(
    p: ServerPage,
    f: ServerFacts,
    query: ServerDetailQuery,
    lang: Locale,
    now: UtcTime,
    k: crate::ports::PortKey,
)
    requires
        crate::server_page::server_page(p, f, query, lang, now),
    ensures
        crate::ports::keys(p.drift.missing@).contains(k) <==> (exists|i: int, j: int| #[trigger]
            declares(f.protocols@, i, j, k)) && !crate::server_page::probe_ports(f.latest).contains(
            k,
        ),
        crate::ports::keys(p.drift.extra@).contains(k) <==> crate::server_page::probe_ports(
            f.latest,
        ).contains(k) && !(exists|i: int, j: int| #[trigger] declares(f.protocols@, i, j, k)) && !(
        k.0 == "tcp"@ && k.1 == f.ssh_port),
        f.latest is None ==> crate::server_page::probe_ports(f.latest).len() == 0,
        f.latest matches Some(h) ==> (h.listening_ports_json is None
            ==> crate::server_page::probe_ports(f.latest).len() == 0),
        f.latest matches Some(h) ==> (h.listening_ports_json matches Some(j)
            ==> crate::server_page::probe_ports(f.latest) == crate::drift::seen_ports(
            crate::json::json_texts(j@),
        )),
{
    let n = f.protocols@.len() as int;
    lemma_declared(f.protocols@, n, k);
    let seen = crate::server_page::probe_ports(f.latest);
    crate::laws::drift::ports_deviate_in_two_ways(
        p.drift,
        seen,
        crate::server_page::declared_ports(f.protocols@, n),
        f.ssh_port,
        k,
    );
    if exists|i: int, j: int| #[trigger] declares(f.protocols@, i, j, k) {
        let (i, j) = choose|i: int, j: int| #[trigger] declares(f.protocols@, i, j, k);
        assert(i < n && declares(f.protocols@, i, j, k));
    }
}

/// Of the five tabs the one shown is marked. The protocols tab carries a warning
/// sign exactly where a probe is there and a port deviates, and the grants tab
/// the number of users.
pub proof fn tabs_tell_of_drift_and_users(
    p: ServerPage,
    f: ServerFacts,
    query: ServerDetailQuery,
    lang: Locale,
    now: UtcTime,
)
    requires
        crate::server_page::server_page(p, f, query, lang, now),
    ensures
        p.tabs@.len() == 5,
        ({
            let base = "/admin/servers/"@ + f.name.path@;
            let drifted = f.latest is Some && (p.drift.missing@.len() > 0 || p.drift.extra@.len()
                > 0);
            &&& p.tabs@[0].href@ == base + "/"@ + "status"@
            &&& p.tabs@[1].href@ == base + "/"@ + "activity"@
            &&& p.tabs@[2].href@ == base + "/"@ + "protocols"@
            &&& p.tabs@[3].href@ == base + "/"@ + "grants"@
            &&& p.tabs@[4].href@ == base + "/"@ + "setup"@
            &&& p.tabs@[0].class@ == "ed-tab ed-tab--on"@ <==> f.tab is Status
            &&& p.tabs@[1].class@ == "ed-tab ed-tab--on"@ <==> f.tab is Activity
            &&& p.tabs@[2].class@ == "ed-tab ed-tab--on"@ <==> f.tab is Protocols
            &&& p.tabs@[3].class@ == "ed-tab ed-tab--on"@ <==> f.tab is Grants
            &&& p.tabs@[4].class@ == "ed-tab ed-tab--on"@ <==> f.tab is Setup
            &&& lang is En ==> {
                &&& p.tabs@[0].label@ == "Status"@
                &&& p.tabs@[1].label@ == "Activity"@
                &&& drifted ==> p.tabs@[2].label@ == "Protocols"@ + " ⚠"@
                &&& !drifted ==> p.tabs@[2].label@ == "Protocols"@
                &&& p.tabs@[3].label@ == "Grants"@ + " · "@ + crate::text::dec_text(
                    f.user_count as nat,
                )
                &&& p.tabs@[4].label@ == "Setup"@
            }
            &&& lang is Ru ==> {
                &&& p.tabs@[0].label@ == "Статус"@
                &&& p.tabs@[1].label@ == "Активность"@
                &&& drifted ==> p.tabs@[2].label@ == "Протоколы"@ + " ⚠"@
                &&& !drifted ==> p.tabs@[2].label@ == "Протоколы"@
                &&& p.tabs@[3].label@ == "Гранты"@ + " · "@ + crate::text::dec_text(
                    f.user_count as nat,
                )
                &&& p.tabs@[4].label@ == "Настройка"@
            }
        }),
{
    let o = crate::server_page::tab_order();
    assert(o[0] == ServerTab::Status && o[1] == ServerTab::Activity && o[2] == ServerTab::Protocols
        && o[3] == ServerTab::Grants && o[4] == ServerTab::Setup);
    reveal_strlit("ed-tab ed-tab--on");
    reveal_strlit("ed-tab");
    assert("ed-tab ed-tab--on"@.len() == 17 && "ed-tab"@.len() == 6);
    let t0 = p.tabs@[0];
    let t1 = p.tabs@[1];
    let t2 = p.tabs@[2];
    let t3 = p.tabs@[3];
    let t4 = p.tabs@[4];
}

/// The page shows the tab its facts are for, made of the same drift, window and
/// sort as asked for.
pub proof fn content_is_the_tab_asked_for(
    p: ServerPage,
    f: ServerFacts,
    query: ServerDetailQuery,
    lang: Locale,
    now: UtcTime,
)
    requires
        crate::server_page::server_page(p, f, query, lang, now),
    ensures
        p.content is Status <==> f.tab is Status,
        p.content is Activity <==> f.tab is Activity,
        p.content is Protocols <==> f.tab is Protocols,
        p.content is Grants <==> f.tab is Grants,
        p.content is Setup <==> f.tab is Setup,
        p.content matches TabView::Status(v) ==> {
            &&& crate::drift::drift_summary(
                v.drift,
                p.drift.missing@.len() as int,
                p.drift.extra@.len() as int,
                f.latest is Some,
                "/admin/servers/"@ + f.name.path@,
            )
            &&& f.tab matches TabFacts::Status(s) && crate::telemetry::uptime_section(
                v.uptime,
                s.uptime_24h,
                s.uptime_7d,
                s.uptime_30d,
                lang,
                now,
            ) && (v.trend is Some <==> s.trend@.len() > 0)
        },
        p.content matches TabView::Activity(v) ==> (f.tab matches TabFacts::Activity(a) && {
            &&& v.total == crate::numbers::clipped(a.bytes_up + a.bytes_dn)
            &&& v.live is NoSnapshot <==> a.snapshot is None
            &&& v.gap is NoData <==> a.breakdown.nic_samples <= 1
            &&& crate::activity::server_traffic_section(
                v.traffic,
                a.traffic@,
                crate::traffic::picked_window(crate::text::opt_string(query.vpn_window)),
                f.name.path@,
                lang,
                now,
            )
        }),
        p.content matches TabView::Protocols(v) ==> {
            &&& v.grid is NoProbe <==> f.latest is None
            &&& v.grid matches DriftSection::Grid(g) ==> crate::drift::drift_grid(
                g,
                f.protocols@,
                p.drift,
            )
            &&& v.detail is Arm <==> !(query.drift is Some && query.drift->0@ == "live"@)
            &&& v.detail matches DriftDetail::Arm { href } ==> href@ == "/admin/servers/"@
                + f.name.path@ + "/protocols?drift=live#drift-detail"@
        },
        p.content matches TabView::Grants(v) ==> (f.tab matches TabFacts::Grants(g)
            && crate::grants::grants_view(
            v,
            g,
            f.name,
            crate::text::opt_string(query.grant_sort),
            lang,
        )),
        p.content matches TabView::Setup(c) ==> (f.tab matches TabFacts::Setup(s)
            && crate::server_page::setup_checks(c, f.latest, s)),
{
}

/// A check of the setup passes on evidence: a probe for the key, the probe's own
/// word for the services, and a log of at most 500 MiB, or of unknown size.
pub proof fn setup_passes_on_evidence(c: SetupChecks, latest: Option<NodeHealth>, f: SetupFacts)
    requires
        crate::server_page::setup_checks(c, latest, f),
    ensures
        c.key_ok <==> latest is Some,
        c.sing_box_ok <==> latest is Some && latest->0.sing_box_active == Some(true),
        c.fail2ban_ok <==> latest is Some && latest->0.fail2ban_active == Some(true),
        c.fingerprint_ok <==> f.fingerprint_pinned,
        c.clash_ok <==> f.clash_ok,
        !c.log_ok <==> latest is Some && latest->0.sing_box_log_bytes is Some
            && latest->0.sing_box_log_bytes->0 > 500 * 1024 * 1024,
        latest is None ==> c.kernels is None,
        latest is Some && latest->0.kernel_versions_json is None ==> c.kernels is None,
        latest is Some && latest->0.kernel_versions_json is Some ==> (c.kernels is Some
            <==> crate::json::json_members(latest->0.kernel_versions_json->0@) is Some),
{
}

/// An address is looked up exactly where a destination has it and no name.
pub proof fn nameless_addresses_are_looked_up(cs: Seq<Destination>, n: int, ip: Seq<char>)
    requires
        0 <= n <= cs.len(),
    ensures
        crate::server_page::nameless(cs, n).contains(ip) <==> exists|i: int|
            0 <= i < n && (#[trigger] cs[i]).host@.len() == 0 && cs[i].ip@ == ip && ip.len() > 0,
        crate::server_page::sources(cs, n).contains(ip) <==> exists|i: int|
            0 <= i < n && (#[trigger] cs[i]).source_ip@ == ip && ip.len() > 0,
    decreases n,
{
    if n > 0 {
        nameless_addresses_are_looked_up(cs, n - 1, ip);
        let a = crate::server_page::nameless(cs, n);
        let a0 = crate::server_page::nameless(cs, n - 1);
        let b = crate::server_page::sources(cs, n);
        let b0 = crate::server_page::sources(cs, n - 1);
        assert(cs[n - 1] == cs[n - 1]);
        if a0.contains(ip) {
            let k = a0.index_of(ip);
            assert(a[k] == ip);
        }
        if b0.contains(ip) {
            let k = b0.index_of(ip);
            assert(b[k] == ip);
        }
        if a.contains(ip) {
            let k = a.index_of(ip);
            if k < a0.len() {
                assert(a0[k] == ip);
            }
        }
        if b.contains(ip) {
            let k = b.index_of(ip);
            if k < b0.len() {
                assert(b0[k] == ip);
            }
        }
        if cs[n - 1].host@.len() == 0 && cs[n - 1].ip@ == ip && ip.len() > 0 {
            assert(a[a.len() - 1] == ip);
        }
        if cs[n - 1].source_ip@ == ip && ip.len() > 0 {
            assert(b[b.len() - 1] == ip);
        }
    }
}

/// A kernel is reported by its name and version, a question mark standing for a
/// version that is no text.
pub proof fn kernels_with_their_versions(name: Seq<char>, v: Seq<char>, n: Option<int>)
    ensures
        crate::server_page::version_text((name, Some(v), n)) == name + " "@ + v,
        crate::server_page::version_text((name, None, n)) == name + " "@ + "?"@,
{
}

/// A report of kernels has one entry per member, every member is among them,
/// and they are in ascending order.
pub open spec fn reports_all(
    parts: Seq<Seq<char>>,
    ms: Seq<(Seq<char>, Option<Seq<char>>, Option<int>)>,
) -> bool {
    &&& parts.len() == ms.len()
    &&& forall|k: int|
        0 <= k < ms.len() ==> parts.contains(crate::server_page::version_text(#[trigger] ms[k]))
    &&& forall|i: int, j: int|
        0 <= i < j < parts.len() ==> !crate::order::lex_lt(#[trigger] parts[j], #[trigger] parts[i])
}

/// The report joins one entry per kernel, all of them, in ascending order.
pub proof fn report_names_every_kernel(
    r: Seq<char>,
    ms: Seq<(Seq<char>, Option<Seq<char>>, Option<int>)>,
)
    requires
        crate::server_page::version_report(r, ms),
        ms.len() <= usize::MAX,
    ensures
        exists|parts: Seq<Seq<char>>| #[trigger]
            reports_all(parts, ms) && r == crate::text::join_text(parts, " · "@),
{
    let all = ms.map_values(
        |m: (Seq<char>, Option<Seq<char>>, Option<int>)| crate::server_page::version_text(m),
    );
    let before = crate::server_page::text_order(all);
    let order = choose|order: Seq<usize>| #[trigger]
        crate::order::stably_sorted(order, all.len() as int, before) && r == crate::text::join_text(
            order.map_values(|i: usize| all[i as int]),
            " · "@,
        );
    let parts = order.map_values(|i: usize| all[i as int]);
    assert forall|i: int, j: int| 0 <= i < j < parts.len() implies !crate::order::lex_lt(
        #[trigger] parts[j],
        #[trigger] parts[i],
    ) by {
        assert(crate::order::listed_before(before, order[i] as int, order[j] as int));
        if crate::order::lex_lt(parts[i], parts[j]) {
            crate::order::lex_lt_asymmetric(parts[i], parts[j]);
        }
    }
    assert forall|k: int| 0 <= k < ms.len() implies parts.contains(
        crate::server_page::version_text(#[trigger] ms[k]),
    ) by {
        assert(order.contains(k as usize));
        let i = order.index_of(k as usize);
        assert(parts[i] == all[k]);
    }
    assert(reports_all(parts, ms));
}

/// The activity tab shows the newest deploy of the trail, the accounting of the
/// interface, and the probable user behind each top source.
pub proof fn activity_of_the_facts(
    p: ServerPage,
    f: ServerFacts,
    query: ServerDetailQuery,
    lang: Locale,
    now: UtcTime,
    k: int,
)
    requires
        crate::server_page::server_page(p, f, query, lang, now),
    ensures
        p.content matches TabView::Activity(v) ==> (f.tab matches TabFacts::Activity(a) && {
            &&& v.last_deploy matches Some(i) ==> i < a.audit@.len() && a.audit@[i as int].action@
                == "server.deploy"@
            &&& 0 <= k < a.audit@.len() && a.audit@[k].action@ == "server.deploy"@
                ==> v.last_deploy is Some && v.last_deploy->0 <= k
            &&& v.gap matches GapSection::Shown { pct, colour, iface } ==> {
                &&& pct == crate::activity::gap_pct(
                    a.breakdown.gap_bytes,
                    a.breakdown.nic_total_bytes,
                )
                &&& pct >= 50 ==> colour@ == "var(--acc)"@
                &&& pct < 50 ==> colour@ == "var(--ink)"@
                &&& a.breakdown.nic_iface is Some ==> iface@ == a.breakdown.nic_iface->0@
                &&& a.breakdown.nic_iface is None ==> iface@ == "?"@
            }
            &&& v.live matches LiveConnections::Shown { total, likely } ==> (a.snapshot matches Some(
                cs,
            ) && {
                &&& total == cs@.len()
                &&& likely@.len() == a.top_sources@.len()
                &&& 0 <= k < likely@.len() ==> crate::activity::likely_user(
                    likely@[k],
                    a.top_sources@[k]@,
                    cs@,
                    a.source_users@,
                    lang,
                )
            })
        }),
        p.content matches TabView::Status(v) ==> (f.tab matches TabFacts::Status(s) && (v.trend
            matches Some(t) ==> t.samples == s.trend@.len() && t.disk@
            == crate::telemetry::disk_readings(s.trend@, 0) && t.memory@
            == crate::telemetry::memory_readings(s.trend@, 0) && t.log@
            == crate::telemetry::log_readings(s.trend@, 0))),
        p.content matches TabView::Protocols(v) ==> (f.tab matches TabFacts::Protocols(t) && {
            let armed = query.drift is Some && query.drift->0@ == "live"@;
            &&& v.detail is Orphans <==> armed && (t.live matches Some(
                DriftLiveResult::Read { orphans },
            ) && orphans@.len() > 0)
            &&& v.detail is Clean <==> armed && (t.live matches Some(
                DriftLiveResult::Read { orphans },
            ) && orphans@.len() == 0)
        }),
{
}

} // verus!
