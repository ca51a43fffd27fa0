//! Laws of totals, caps and projections.
use crate::locale::Locale;
use crate::time::UtcTime;
use crate::traffic::{LiveTraffic, LiveVpnStats, ServerTraffic, TrafficLimit, VpnStatsRow};
use vstd::prelude::*;

verus! {

/// The reported threshold is the stored one, and 80 % where none is stored.
/// Against a positive cap the user is over from 100 % on, near from the
/// reported threshold on, and under below it; the bar takes the accent colour
/// from the reported threshold on.
pub proof fn verdict_goes_by_the_reported_threshold(
    r: TrafficLimit,
    used: Option<u64>,
    stored: Option<(Option<u64>, Option<u8>)>,
    now: UtcTime,
)
    requires
        r == crate::traffic::traffic_limit(used, stored, now),
    ensures
        stored matches Some(s) ==> (s.1 matches Some(t) ==> r.threshold == t),
        (stored matches Some(s) ==> s.1 is None) ==> r.threshold == 80,
        used matches Some(n) ==> r.used == n,
        used is None ==> r.used == 0,
        r.cap is Some <==> (stored matches Some(s) && s.0 matches Some(l) && l > 0),
        r.cap matches Some(c) ==> {
            &&& (stored matches Some(s) && s.0 == Some(c.limit))
            &&& c.state is Over <==> c.pct >= 100
            &&& c.state is Near <==> r.threshold <= c.pct < 100
            &&& c.state is Under <==> c.pct < 100 && c.pct < r.threshold
            &&& c.bar_accent <==> c.pct >= r.threshold
            &&& c.pct <= 100 ==> c.bar_pct == c.pct
            &&& c.pct > 100 ==> c.bar_pct == 100
            &&& c.pct * c.limit <= r.used * 100
            &&& c.pct < 999 ==> r.used * 100 < (c.pct + 1) * c.limit
            &&& c.pct <= 999
        },
{
    if let Some(c) = r.cap {
        crate::laws::texts::percentage(r.used as int, c.limit as int, c.pct as int);
    }
}

/// The estimate for the end of the month is there once something is used. It
/// is what the pace so far gives for the whole month, in whole bytes, and is on
/// track to exceed the cap from 100 % on.
pub proof fn estimate_keeps_the_pace(
    r: TrafficLimit,
    used: Option<u64>,
    stored: Option<(Option<u64>, Option<u8>)>,
    now: UtcTime,
    date: (int, int, int),
)
    requires
        r == crate::traffic::traffic_limit(used, stored, now),
        r.cap is Some,
        crate::time::date_on(now.seconds() / 86_400, date),
    ensures
        r.cap->0.projection is Some <==> r.used > 0,
        r.cap->0.projection matches Some(p) ==> {
            &&& p.bytes * date.2 <= r.used * crate::time::month_days(date.0, date.1)
            &&& p.bytes < u64::MAX ==> r.used * crate::time::month_days(date.0, date.1) < (p.bytes
                + 1) * date.2
            &&& p.over <==> p.pct >= 100
            &&& p.pct <= 999
            &&& p.pct * r.cap->0.limit <= p.bytes * 100
            &&& p.pct < 999 ==> p.bytes * 100 < (p.pct + 1) * r.cap->0.limit
        },
{
    pace_of_the_month(r.used, now, date);
    if let Some(p) = r.cap->0.projection {
        crate::laws::texts::percentage(p.bytes as int, r.cap->0.limit as int, p.pct as int);
    }
}

/// The projection is the largest number of bytes that keeps the pace so far:
/// over the whole month it stands to the days of the month as the usage stands
/// to the days reached.
pub proof fn pace_of_the_month(used: u64, now: UtcTime, date: (int, int, int))
    requires
        crate::time::date_on(now.seconds() / 86_400, date),
    ensures
        crate::traffic::month_end(used as int, now) is Some <==> used > 0,
        crate::traffic::month_end(used as int, now) matches Some(p) ==> p * date.2 <= used
            * crate::time::month_days(date.0, date.1) && (p < u64::MAX ==> used
            * crate::time::month_days(date.0, date.1) < (p + 1) * date.2),
{
    crate::laws::calendar::the_date_of_a_day(now.seconds() / 86_400, date);
    pace(used, date.2, crate::time::month_days(date.0, date.1));
}

/// The same on a given day of a month of `days` days.
pub proof fn pace(used: u64, day: int, days: int)
    requires
        day >= 1,
        days >= 1,
    ensures
        crate::traffic::projected(used as int, day, days) is Some <==> used > 0,
        crate::traffic::projected(used as int, day, days) matches Some(p) ==> p * day <= used * days
            && (p < u64::MAX ==> used * days < (p + 1) * day),
{
    let n = used * days;
    let q = n / day;
    assert(n >= 0) by (nonlinear_arith)
        requires
            n == used * days,
            days >= 1,
    ;
    vstd::arithmetic::div_mod::lemma_fundamental_div_mod(n, day);
    vstd::arithmetic::div_mod::lemma_mod_bound(n, day);
    vstd::arithmetic::div_mod::lemma_div_pos_is_pos(n, day);
    assert(day * q == q * day) by (nonlinear_arith);
    assert((q + 1) * day == q * day + day) by (nonlinear_arith);
    if q > u64::MAX {
        let max = u64::MAX as int;
        assert(max * day <= q * day) by (nonlinear_arith)
            requires
                max <= q,
                day >= 1,
        ;
    }
}

/// Totals grow by the bytes of each further row, the peak is the largest
/// number of connections of any row.
pub proof fn totals_grow_by_rows(rows: Seq<VpnStatsRow>, row: VpnStatsRow)
    ensures
        crate::traffic::up_sum(Seq::empty()) == 0,
        crate::traffic::down_sum(Seq::empty()) == 0,
        crate::traffic::peak(Seq::empty()) == 0,
        crate::traffic::up_sum(rows.push(row)) == crate::traffic::up_sum(rows) + row.upload_bytes,
        crate::traffic::down_sum(rows.push(row)) == crate::traffic::down_sum(rows)
            + row.download_bytes,
        crate::traffic::peak(rows.push(row)) >= crate::traffic::peak(rows),
        crate::traffic::peak(rows.push(row)) >= row.active_connections,
        crate::traffic::peak(rows.push(row)) == crate::traffic::peak(rows) || crate::traffic::peak(
            rows.push(row),
        ) == row.active_connections,
{
    assert(rows.push(row).drop_last() =~= rows);
}

/// A further row counts for its own server, and for no other.
pub proof fn row_counts_for_its_server(
    t: ServerTraffic,
    u: ServerTraffic,
    rows: Seq<VpnStatsRow>,
    row: VpnStatsRow,
    id: Seq<char>,
)
    requires
        crate::traffic::server_traffic(t, rows, id),
        crate::traffic::server_traffic(u, rows.push(row), id),
    ensures
        row.server_id@ != id ==> u.up == t.up && u.down == t.down && u.peak == t.peak && u.total
            == t.total,
        row.server_id@ == id ==> {
            &&& u.up == crate::numbers::clipped(t.up + row.upload_bytes)
            &&& u.down == crate::numbers::clipped(t.down + row.download_bytes)
            &&& u.peak == (if row.active_connections > t.peak {
                row.active_connections
            } else {
                t.peak
            })
        },
        t.server_id@ == id,
        t.total == crate::numbers::clipped(t.up + t.down),
{
    let more = rows.push(row);
    reveal(Seq::filter);
    assert(more.drop_last() =~= rows);
    let own = crate::traffic::rows_of_server(rows, id);
    assert(own.push(row).drop_last() =~= own);
    crate::traffic::row_sums_are_counts(own);
}

/// A server without rows has no traffic.
pub proof fn server_without_rows(t: ServerTraffic, id: Seq<char>)
    requires
        crate::traffic::server_traffic(t, Seq::empty(), id),
    ensures
        t.up == 0,
        t.down == 0,
        t.total == 0,
        t.peak == 0,
{
    reveal(Seq::filter);
}

/// The servers listed are those of the rows, each once, by ascending id.
pub proof fn servers_of_the_rows(
    v: Seq<ServerTraffic>,
    rows: Seq<VpnStatsRow>,
    id: Seq<char>,
    i: int,
    j: int,
)
    requires
        crate::traffic::per_server_of(v, rows),
    ensures
        (exists|k: int| 0 <= k < v.len() && (#[trigger] v[k]).server_id@ == id) <==> (exists|k: int|
            0 <= k < rows.len() && (#[trigger] rows[k]).server_id@ == id),
        0 <= i < j < v.len() ==> crate::order::lex_lt(v[i].server_id@, v[j].server_id@),
        0 <= i < v.len() ==> crate::traffic::server_traffic(v[i], rows, v[i].server_id@),
{
    let ids = v.map_values(|t: ServerTraffic| t.server_id@);
    let all = crate::traffic::server_ids(rows);
    assert(ids.contains(id) <==> all.contains(id));
    if exists|k: int| 0 <= k < v.len() && (#[trigger] v[k]).server_id@ == id {
        let k = choose|k: int| 0 <= k < v.len() && (#[trigger] v[k]).server_id@ == id;
        assert(ids[k] == id);
        let n = all.index_of(id);
        assert(rows[n].server_id@ == id);
    }
    if exists|k: int| 0 <= k < rows.len() && (#[trigger] rows[k]).server_id@ == id {
        let k = choose|k: int| 0 <= k < rows.len() && (#[trigger] rows[k]).server_id@ == id;
        assert(all[k] == id);
        let n = ids.index_of(id);
        assert(v[n].server_id@ == id);
    }
    if 0 <= i < j < v.len() {
        assert(ids[i] == v[i].server_id@ && ids[j] == v[j].server_id@);
    }
}

/// The live section is unavailable where the snapshots could not be read,
/// empty where there are none, and otherwise counts each of them.
pub proof fn live_section_counts_all_rows(
    v: LiveVpnStats,
    rows: Option<Vec<VpnStatsRow>>,
    slug: Option<Seq<char>>,
    user: Seq<char>,
    lang: Locale,
    offset: i32,
    now: UtcTime,
)
    requires
        crate::traffic::live_vpn_stats(v, rows, slug, user, lang, offset, now),
    ensures
        v is Unavailable <==> rows is None,
        v is Empty <==> (rows matches Some(r) && r@.len() == 0),
        v matches LiveVpnStats::Shown(t) ==> rows matches Some(r) && {
            &&& t.snapshots == r@.len()
            &&& t.up == crate::numbers::clipped(crate::traffic::up_sum(r@))
            &&& t.down == crate::numbers::clipped(crate::traffic::down_sum(r@))
            &&& t.peak == crate::traffic::peak(r@)
            &&& crate::traffic::per_server_of(t.per_server@, r@)
            &&& t.trend@ == crate::traffic::trend_cells(
                r@,
                now,
                crate::traffic::picked_window(slug),
            )
            &&& crate::traffic::chart_of(
                t.chart,
                r@,
                crate::traffic::picked_window(slug),
                lang,
                offset,
                now,
            )
            &&& crate::traffic::picker_of(
                t.picker@,
                "/admin/users/"@ + user + "/traffic"@,
                crate::traffic::picked_window(slug).slug@,
                lang,
            )
        },
{
}

/// The compact trend is drawn exactly where one of its cells holds traffic, and
/// is scaled to its largest cell. The caption counts in the singular exactly
/// for one snapshot.
pub proof fn trend_is_drawn_for_traffic(
    t: LiveTraffic,
    rows: Seq<VpnStatsRow>,
    slug: Option<Seq<char>>,
    user: Seq<char>,
    lang: Locale,
    offset: i32,
    now: UtcTime,
    i: int,
)
    requires
        crate::traffic::live_traffic(t, rows, slug, user, lang, offset, now),
        0 <= i < t.trend@.len(),
    ensures
        t.trend@[i] > 0 ==> t.show_trend,
        t.show_trend ==> t.trend_max > 0,
        t.trend@[i] <= t.trend_max,
        t.trend@.contains(t.trend_max),
        lang is En ==> t.snapshots_noun@ == (if rows.len() == 1 {
            " snapshot"@
        } else {
            " snapshots"@
        }),
        lang is Ru ==> t.snapshots_noun@ == (if rows.len() == 1 {
            " снэпшота"@
        } else {
            " снэпшотов"@
        }),
        lang is En ==> t.window_label == crate::traffic::picked_window(slug).label_en,
        lang is Ru ==> t.window_label == crate::traffic::picked_window(slug).label_ru,
{
    crate::numbers::greatest_bounds(t.trend@, i);
    crate::numbers::greatest_occurs(t.trend@);
    crate::laws::texts::positive_iff_greatest_is(t.trend@);
}

} // verus!
