//! The central laws over what the functions return.
use crate::drift::{server_detail_drift_section, DeclaredProtocol, DriftSection, PortDrift};
use crate::grants::{grants_tab, GrantsFacts, GrantsView, ServerName};
use crate::locale::Locale;
use crate::ports::Port;
use crate::presence::{
    user_online_badge, user_online_badge_at, LiveSnapshot, OnlineBadge, SourceOwners,
};
use crate::server_page::{
    server_detail_render, server_detail_render_at, ServerDetailQuery, ServerFacts, ServerPage,
};
use crate::share_links::{
    plan_links, plan_share_links, LinkJob, LinkKind, RenderUser, ServerPeers, ShareServer,
};
use crate::time::UtcTime;
use crate::traffic::{
    live_vpn_stats_section, live_vpn_stats_section_at, user_traffic_limit_section,
    user_traffic_limit_section_at, vpn_traffic_chart, vpn_traffic_chart_at,
    vpn_traffic_trend_series, vpn_traffic_trend_series_at, CapState, LiveVpnStats, TrafficChart,
    TrafficLimit, VpnSparklineWindow, VpnStatsRow,
};
use vstd::prelude::*;

verus! {

/// Drawn once more with one more row, a chart keeps its axis and raises just the
/// bar whose interval holds the row's instant, by the bytes of the row.
pub proof fn drawn_row_raises_its_bar(
    rows: &Vec<VpnStatsRow>,
    more: &Vec<VpnStatsRow>,
    row: VpnStatsRow,
    w: VpnSparklineWindow,
    lang: Locale,
    offset: i32,
    now: UtcTime,
    c: TrafficChart,
    d: TrafficChart,
    i: int,
)
    requires
        call_ensures(vpn_traffic_chart_at, (rows, w, lang, offset, now), Some(c)),
        call_ensures(vpn_traffic_chart_at, (more, w, lang, offset, now), Some(d)),
        more@ == rows@.push(row),
        crate::laws::charts::bucketable(row.ts),
        0 <= i < w.cells,
    ensures
        d.starts@ == c.starts@,
        crate::laws::charts::in_bucket(row.ts, c.starts@[i] as int, w) ==> d.up@[i]
            == crate::numbers::clipped(c.up@[i] + row.upload_bytes) && d.down@[i]
            == crate::numbers::clipped(c.down@[i] + row.download_bytes),
        !crate::laws::charts::in_bucket(row.ts, c.starts@[i] as int, w) ==> d.up@[i] == c.up@[i]
            && d.down@[i] == c.down@[i],
        crate::laws::charts::in_bucket(now, c.starts@[w.cells - 1] as int, w),
        c.starts@[w.cells - 1] - c.starts@[i] == (w.cells - 1 - i) * (w.bucket_hours * 3600),
{
    crate::laws::charts::row_raises_its_bar(c, d, rows@, row, w, lang, offset, now, i);
    crate::laws::charts::bars_tile_the_window(
        c,
        rows@,
        w,
        lang,
        offset,
        now,
        i,
        w.cells - 1,
    );
}

/// Each cell of the compact series is as high as the bar of the chart drawn at
/// the same instant, and every chart is one of the laws on charts.
pub proof fn series_and_chart_agree(
    rows: &Vec<VpnStatsRow>,
    w: VpnSparklineWindow,
    lang: Locale,
    offset: i32,
    now: UtcTime,
    c: Option<TrafficChart>,
    s: Vec<u64>,
    i: int,
)
    requires
        call_ensures(vpn_traffic_chart_at, (rows, w, lang, offset, now), c),
        call_ensures(vpn_traffic_trend_series_at, (rows, w, now), s),
        0 <= i < w.cells,
    ensures
        crate::traffic::chart_of(c, rows@, w, lang, offset, now),
        s@.len() == w.cells,
        c matches Some(c) ==> s@[i] == crate::numbers::clipped(c.up@[i] + c.down@[i]),
        c is None ==> s@[i] == 0,
        c is None <==> !(crate::laws::charts::bucketable(now) && 0
            < crate::laws::charts::bucket_nanos(w) <= i64::MAX),
{
    if let Some(x) = c {
        crate::laws::charts::series_follows_the_bars(rows@, w, now, i, x, lang, offset);
    } else {
        lemma_no_bars(rows@, w, now, i);
    }
    crate::laws::charts::chart_where_time_fits(rows@, w, lang, offset, now);
}

proof fn lemma_no_bars(rows: Seq<VpnStatsRow>, w: VpnSparklineWindow, now: UtcTime, i: int)
    requires
        crate::time::truncated(now.stamp(), crate::traffic::cell_span(w)) is None,
    ensures
        crate::traffic::up_in(rows, now, w, i) == 0,
        crate::traffic::down_in(rows, now, w, i) == 0,
    decreases rows.len(),
{
    if rows.len() > 0 {
        lemma_no_bars(rows.drop_last(), w, now, i);
    }
}

/// What is drawn by the clock is what is drawn at some instant not before 1970.
pub proof fn charts_by_the_clock(
    rows: &Vec<VpnStatsRow>,
    w: VpnSparklineWindow,
    lang: Locale,
    offset: i32,
    c: Option<TrafficChart>,
    s: Vec<u64>,
)
    requires
        call_ensures(vpn_traffic_chart, (rows, w, lang, offset), c),
        call_ensures(vpn_traffic_trend_series, (rows, w), s),
    ensures
        exists|now: UtcTime|
            0 <= now.seconds() && #[trigger] crate::traffic::chart_of(
                c,
                rows@,
                w,
                lang,
                offset,
                now,
            ),
        exists|now: UtcTime|
            0 <= now.seconds() && s@ == #[trigger] crate::traffic::trend_cells(rows@, now, w),
{
}

/// The live section counts all rows that could be read, at the instant given and
/// by the clock.
pub proof fn live_section_of_rows(
    rows: &Option<Vec<VpnStatsRow>>,
    slug: Option<&str>,
    user: &str,
    lang: Locale,
    offset: i32,
    now: UtcTime,
    r: LiveVpnStats,
    q: LiveVpnStats,
)
    requires
        call_ensures(live_vpn_stats_section_at, (rows, slug, user, lang, offset, now), r),
        call_ensures(live_vpn_stats_section, (rows, slug, user, lang, offset), q),
    ensures
        crate::traffic::live_vpn_stats(
            r,
            *rows,
            crate::text::opt_text(slug),
            user@,
            lang,
            offset,
            now,
        ),
        exists|t: UtcTime|
            0 <= t.seconds() && #[trigger] crate::traffic::live_vpn_stats(
                q,
                *rows,
                crate::text::opt_text(slug),
                user@,
                lang,
                offset,
                t,
            ),
        r is Unavailable <==> *rows is None,
        r is Empty <==> (*rows matches Some(v) && v@.len() == 0),
        r matches LiveVpnStats::Shown(t) ==> (*rows matches Some(v) && t.snapshots == v@.len()),
{
}

/// The verdict on a user's traffic goes by the threshold that is shown with it,
/// the stored one or 80 %.
pub proof fn verdict_and_threshold_agree(
    used: Option<u64>,
    stored: Option<(Option<u64>, Option<u8>)>,
    now: UtcTime,
    r: TrafficLimit,
    q: TrafficLimit,
)
    requires
        call_ensures(user_traffic_limit_section_at, (used, stored, now), r),
        call_ensures(user_traffic_limit_section, (used, stored), q),
    ensures
        exists|t: UtcTime|
            0 <= t.seconds() && q == #[trigger] crate::traffic::traffic_limit(used, stored, t),
        stored matches Some(s) ==> (s.1 matches Some(t) ==> r.threshold == t),
        (stored matches Some(s) ==> s.1 is None) ==> r.threshold == 80,
        r.cap is Some <==> (stored matches Some(s) && s.0 matches Some(l) && l > 0),
        r.cap matches Some(c) ==> {
            &&& c.state == CapState::Over <==> c.pct >= 100
            &&& c.state == CapState::Near <==> r.threshold <= c.pct < 100
            &&& c.state == CapState::Under <==> c.pct < 100 && c.pct < r.threshold
            &&& c.bar_accent <==> c.pct >= r.threshold
            &&& c.pct * c.limit <= r.used * 100
            &&& c.pct < 999 ==> r.used * 100 < (c.pct + 1) * c.limit
        },
        r == crate::traffic::traffic_limit(used, stored, now),
{
    crate::laws::totals::verdict_goes_by_the_reported_threshold(r, used, stored, now);
}

/// A link is planned for a server exactly where its secrets are at hand, it has
/// `wireguard` enabled and, for AmneziaWG links, runs `amneziawg`, wherever in
/// its lists they stand.
pub proof fn planned_for_every_server_that_gives_links(
    user: &RenderUser,
    servers: &Vec<ShareServer>,
    with_secrets: &Vec<String>,
    peers: &Vec<ServerPeers>,
    kind: LinkKind,
    r: Vec<LinkJob>,
    i: int,
)
    requires
        call_ensures(plan_links, (user, servers, with_secrets, peers, kind), r),
        0 <= i < servers@.len(),
    ensures
        crate::share_links::link_jobs(
            r@,
            *user,
            servers@,
            crate::text::texts(with_secrets@),
            peers@,
            kind,
        ),
        (exists|k: int| 0 <= k < r@.len() && (#[trigger] r@[k]).server == i) <==> {
            &&& crate::laws::links::lists(servers@[i].enabled_protocols@, "wireguard"@)
            &&& kind == LinkKind::Awg ==> crate::laws::links::lists(
                servers@[i].kernels@,
                "amneziawg"@,
            )
            &&& crate::laws::links::lists(with_secrets@, servers@[i].id@)
        },
{
    crate::laws::links::links_for_every_server_that_gives_them(
        r@,
        *user,
        servers@,
        crate::text::texts(with_secrets@),
        peers@,
        kind,
        i,
    );
    crate::laws::texts::holds_text(with_secrets@, servers@[i].id@);
}

/// A share link is planned for a protocol of a server exactly where the server's
/// secrets are at hand and the registry knows the protocol; servers and, within
/// one, protocols keep their order.
pub proof fn planned_for_every_known_protocol(
    user: &RenderUser,
    servers: &Vec<ShareServer>,
    with_secrets: &Vec<String>,
    registered: &Vec<String>,
    peers: &Vec<ServerPeers>,
    r: Vec<LinkJob>,
    i: int,
    p: int,
)
    requires
        call_ensures(plan_share_links, (user, servers, with_secrets, registered, peers), r),
        0 <= i < servers@.len(),
        0 <= p < servers@[i].enabled_protocols@.len(),
    ensures
        (exists|k: int|
            0 <= k < r@.len() && (#[trigger] r@[k]).server == i && r@[k].protocol == p) <==> {
            &&& crate::laws::links::lists(with_secrets@, servers@[i].id@)
            &&& crate::laws::links::lists(registered@, servers@[i].enabled_protocols@[p]@)
        },
        forall|j: int, k: int|
            0 <= j < k < r@.len() ==> (#[trigger] r@[j]).server < (#[trigger] r@[k]).server || (
            r@[j].server == r@[k].server && r@[j].protocol < r@[k].protocol),
        forall|k: int|
            0 <= k < r@.len() ==> crate::share_links::job_for(
                #[trigger] r@[k],
                r@[k].server as int,
                r@[k].protocol as int,
                *user,
                servers@,
                peers@,
            ),
{
    let secrets = crate::text::texts(with_secrets@);
    let known = crate::text::texts(registered@);
    crate::laws::texts::holds_text(with_secrets@, servers@[i].id@);
    crate::laws::texts::holds_text(registered@, servers@[i].enabled_protocols@[p]@);
    let at = crate::share_links::share_points(servers@, secrets, known, servers@.len() as int);
    assert forall|k: int| 0 <= k < r@.len() implies (#[trigger] r@[k]).server == at[k].0
        && r@[k].protocol == at[k].1 && crate::share_links::job_for(
        r@[k],
        r@[k].server as int,
        r@[k].protocol as int,
        *user,
        servers@,
        peers@,
    ) by {
        assert(crate::share_links::job_for(r@[k], at[k].0, at[k].1, *user, servers@, peers@));
    }
    if exists|k: int| 0 <= k < r@.len() && (#[trigger] r@[k]).server == i && r@[k].protocol == p {
        let k = choose|k: int|
            0 <= k < r@.len() && (#[trigger] r@[k]).server == i && r@[k].protocol == p;
        crate::share_links::planned_share_links_are_eligible(
            r@,
            *user,
            servers@,
            secrets,
            known,
            peers@,
            k,
        );
    }
    if secrets.contains(servers@[i].id@) && known.contains(servers@[i].enabled_protocols@[p]@) {
        assert(crate::share_links::shareable(servers@, secrets, known, (i, p)));
        crate::share_links::eligible_share_links_are_planned(
            r@,
            *user,
            servers@,
            secrets,
            known,
            peers@,
            (i, p),
        );
    }
    assert forall|j: int, k: int| 0 <= j < k < r@.len() implies (#[trigger] r@[j]).server
        < (#[trigger] r@[k]).server || (r@[j].server == r@[k].server && r@[j].protocol
        < r@[k].protocol) by {
        crate::share_links::share_links_are_planned_in_order(
            r@,
            *user,
            servers@,
            secrets,
            known,
            peers@,
            j,
            k,
        );
    }
}

/// A user is online exactly where some connection on some server belongs to
/// them: attributed to them, or to nobody and they are listed first for its
/// address, with or without others behind.
pub proof fn badge_shows_who_is_connected(
    uid: &str,
    snaps: &Vec<LiveSnapshot>,
    owners: &Vec<SourceOwners>,
    last_seen: Option<UtcTime>,
    lang: Locale,
    now: UtcTime,
    r: OnlineBadge,
    q: OnlineBadge,
    id: Seq<char>,
)
    requires
        call_ensures(user_online_badge_at, (uid, snaps, owners, last_seen, lang, now), r),
        call_ensures(user_online_badge, (uid, snaps, owners, last_seen, lang), q),
    ensures
        crate::presence::badge_of(r, uid@, snaps@, owners@, last_seen, lang, now),
        exists|t: UtcTime|
            0 <= t.seconds() && #[trigger] crate::presence::badge_of(
                q,
                uid@,
                snaps@,
                owners@,
                last_seen,
                lang,
                t,
            ),
        r is Online <==> exists|k: int|
            0 <= k < snaps@.len() && crate::laws::presence::seen_on(
                #[trigger] snaps@[k],
                uid@,
                owners@,
            ),
        r matches OnlineBadge::Online { servers, .. } ==> (crate::text::texts(servers@).contains(id)
            <==> exists|k: int|
            0 <= k < snaps@.len() && (#[trigger] snaps@[k]).server_id@ == id
                && crate::laws::presence::seen_on(snaps@[k], uid@, owners@)),
{
    crate::laws::presence::online_where_a_connection_belongs(
        r,
        uid@,
        snaps@,
        owners@,
        last_seen,
        lang,
        now,
        id,
    );
}

/// The drift grid is there exactly with a probe. With a WireGuard protocol
/// declared it counts every undeclared UDP listener from 30000 on as a peer and
/// lists the rest; without one it lists them all and counts none.
pub proof fn grid_counts_peer_sockets(
    protocols: &Vec<DeclaredProtocol>,
    drift: &PortDrift,
    have_probe: bool,
    r: DriftSection,
)
    requires
        call_ensures(server_detail_drift_section, (protocols, drift, have_probe), r),
    ensures
        r is NoProbe <==> !have_probe,
        r matches DriftSection::Grid(g) ==> {
            let wg = crate::laws::drift::wireguard_declared(protocols@);
            &&& crate::drift::drift_grid(g, protocols@, *drift)
            &&& wg ==> g.wg_peers == drift.extra@.filter(
                |p: Port| crate::laws::drift::peer_socket(p),
            ).len()
            &&& !wg ==> g.wg_peers == 0
            &&& wg ==> crate::text::texts(g.unclassified@) == drift.extra@.filter(
                |p: Port|
                    !crate::laws::drift::web_internal(p) && !crate::laws::drift::peer_socket(p),
            ).map_values(|p: Port| crate::laws::drift::label(p))
            &&& !wg ==> crate::text::texts(g.unclassified@) == drift.extra@.filter(
                |p: Port| !crate::laws::drift::web_internal(p),
            ).map_values(|p: Port| crate::laws::drift::label(p))
        },
{
    if let DriftSection::Grid(g) = r {
        crate::laws::drift::listeners_by_group(g, protocols@, *drift);
    }
}

/// The page of a server and its grants tab are those of the facts and the query,
/// at the instant given and by the clock.
pub proof fn pages_of_the_facts(
    f: &ServerFacts,
    query: &ServerDetailQuery,
    lang: Locale,
    now: UtcTime,
    p: ServerPage,
    q: ServerPage,
    g: &GrantsFacts,
    server: &ServerName,
    sort: Option<&str>,
    v: GrantsView,
)
    requires
        call_ensures(server_detail_render_at, (f, query, lang, now), p),
        call_ensures(server_detail_render, (f, query, lang), q),
        call_ensures(grants_tab, (g, server, sort, lang), v),
    ensures
        crate::server_page::server_page(p, *f, *query, lang, now),
        exists|t: UtcTime|
            0 <= t.seconds() && #[trigger] crate::server_page::server_page(
                q,
                *f,
                *query,
                lang,
                t,
            ),
        crate::grants::grants_view(v, *g, *server, crate::text::opt_text(sort), lang),
{
}

} // verus!
