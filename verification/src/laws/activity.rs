//! Laws of a server's activity.
use crate::activity::{LikelyUser, ServerTrafficSection, SourceFetches};
use crate::locale::Locale;
use crate::presence::LiveConnection;
use crate::time::UtcTime;
use crate::traffic::{VpnSparklineWindow, VpnStatsRow};
use vstd::prelude::*;

verus! {

/// The gap is the whole number of hundredths of all traffic that nobody is
/// charged for, at most 100, and none of no traffic.
pub proof fn gap_in_hundredths(gap: u64, total: u64, p: int)
    requires
        p == crate::activity::gap_pct(gap, total),
    ensures
        0 <= p <= 100,
        total == 0 ==> p == 0,
        gap * 100 <= u64::MAX && total > 0 ==> p * total <= gap * 100,
        gap * 100 <= u64::MAX && total > 0 && p < 100 ==> gap * 100 < (p + 1) * total,
{
    if total > 0 {
        let n = crate::numbers::clipped(gap * 100) as int;
        let d = total as int;
        let q = n / d;
        vstd::arithmetic::div_mod::lemma_fundamental_div_mod(n, d);
        vstd::arithmetic::div_mod::lemma_mod_bound(n, d);
        vstd::arithmetic::div_mod::lemma_div_pos_is_pos(n, d);
        assert(d * q == q * d) by (nonlinear_arith);
        assert((q + 1) * d == q * d + d) by (nonlinear_arith);
        if q > 100 {
            assert(100 * d <= q * d) by (nonlinear_arith)
                requires
                    q > 100,
                    d > 0,
            ;
        }
    }
}

/// The connection comes from `ip` and the node attributes it to `user`.
pub open spec fn from_by(c: LiveConnection, ip: Seq<char>, user: Seq<char>) -> bool {
    c.source_ip@ == ip && c.user is Some && c.user->0@ == user
}

/// Attributed connections are counted per address and user.
pub proof fn connections_per_address_and_user(
    cs: Seq<LiveConnection>,
    ip: Seq<char>,
    user: Seq<char>,
)
    ensures
        crate::activity::attributed_to(cs, ip, user) == cs.filter(
            |c: LiveConnection| from_by(c, ip, user),
        ).len(),
    decreases cs.len(),
{
    reveal(Seq::filter);
    if cs.len() > 0 {
        connections_per_address_and_user(cs.drop_last(), ip, user);
    }
}

/// Entry `e` is the first for the address.
pub open spec fn first_for(map: Seq<SourceFetches>, ip: Seq<char>, e: int) -> bool {
    &&& 0 <= e < map.len()
    &&& map[e].ip@ == ip
    &&& forall|j: int| 0 <= j < e ==> (#[trigger] map[j]).ip@ != ip
}

/// The fetches from an address are those of the first entry for it.
pub proof fn fetches_of_the_first_entry(map: Seq<SourceFetches>, ip: Seq<char>, e: int)
    ensures
        first_for(map, ip, e) ==> crate::activity::fetches_from(map, ip) == map[e].users@,
        (forall|j: int| 0 <= j < map.len() ==> (#[trigger] map[j]).ip@ != ip)
            ==> crate::activity::fetches_from(map, ip).len() == 0,
    decreases map.len(),
{
    if map.len() > 0 && map[0].ip@ != ip {
        let rest = map.skip(1);
        fetches_of_the_first_entry(rest, ip, e - 1);
        if first_for(map, ip, e) {
            assert forall|j: int| 0 <= j < e - 1 implies (#[trigger] rest[j]).ip@ != ip by {
                assert(map[j + 1].ip@ != ip);
            }
        }
        if forall|j: int| 0 <= j < map.len() ==> (#[trigger] map[j]).ip@ != ip {
            assert forall|j: int| 0 <= j < rest.len() implies (#[trigger] rest[j]).ip@ != ip by {
                assert(map[j + 1].ip@ != ip);
            }
        }
    } else if map.len() > 0 && first_for(map, ip, e) && e > 0 {
        assert(map[0].ip@ != ip);
    }
}

/// Behind an address the node's own attribution comes first: the user named has
/// at least as many connections from it as any other. Where the node attributes
/// none, it is the first user of the first entry of fetches, with the others
/// counted, and where there is none nobody is named.
pub proof fn attribution_comes_before_fetches(
    u: LikelyUser,
    ip: Seq<char>,
    cs: Seq<LiveConnection>,
    map: Seq<SourceFetches>,
    lang: Locale,
    other: Seq<char>,
    e: int,
    i: int,
)
    requires
        crate::activity::likely_user(u, ip, cs, map, lang),
    ensures
        0 <= i < cs.len() && cs[i].source_ip@ == ip && cs[i].user is Some && ip.len() > 0
            ==> u is Log,
        u matches LikelyUser::Log { user } ==> {
            &&& ip.len() > 0
            &&& cs.filter(|c: LiveConnection| from_by(c, ip, user@)).len() > 0
            &&& cs.filter(|c: LiveConnection| from_by(c, ip, other)).len() <= cs.filter(
                |c: LiveConnection| from_by(c, ip, user@),
            ).len()
        },
        !(u is Log) && first_for(map, ip, e) && map[e].users@.len() > 0 ==> (u matches
            LikelyUser::Sub { user, title, more } && user@ == map[e].users@[0].user@ && more
            == map[e].users@.len() - 1 && (lang is En ==> title@
            == "Source: subscription fetches over the last 7 days. Best-guess (NAT can collide)."@
            + " ("@ + crate::text::dec_text(map[e].users@[0].hits as nat) + " "@
            + "fetches from this IP"@ + ")"@) && (lang is Ru ==> title@
            == "Источник: запросы подписки за 7 дней. Эвристика (NAT может коллидировать)."@
            + " ("@ + crate::text::dec_text(map[e].users@[0].hits as nat) + " "@
            + "запросов с этого IP"@ + ")"@)),
        !(u is Log) && first_for(map, ip, e) && map[e].users@.len() == 0 ==> u is Unknown,
        !(u is Log) && (forall|j: int| 0 <= j < map.len() ==> (#[trigger] map[j]).ip@ != ip)
            ==> u is Unknown,
{
    fetches_of_the_first_entry(map, ip, e);
    connections_per_address_and_user(cs, ip, other);
    if let LikelyUser::Log { user } = u {
        connections_per_address_and_user(cs, ip, user@);
        assert(crate::activity::attributed_to(cs, ip, other) <= crate::activity::attributed_to(
            cs,
            ip,
            user@,
        ));
    }
}

/// A row counts in the cell its age falls in: the newest cell for what is
/// younger than one bucket or still to come, each cell before it one bucket
/// older, and the oldest cell for everything older still.
pub proof fn age_decides_the_cell(now: UtcTime, ts: UtcTime, w: VpnSparklineWindow, i: int)
    requires
        w.bucket_hours > 0,
        0 <= i < w.cells,
    ensures
        ({
            let age = now.stamp() - ts.stamp();
            let bucket = w.bucket_hours * 3600 * 1_000_000_000;
            let back = w.cells - 1 - i;
            crate::activity::clamped_cell(now, ts, w) == i <==> (back == 0 || back * bucket <= age)
                && (i == 0 || age < (back + 1) * bucket)
        }),
{
    let age = now.stamp() - ts.stamp();
    let secs = crate::time::whole_seconds(age);
    let b = w.bucket_hours * 3600;
    let bucket = b * 1_000_000_000;
    let back = w.cells - 1 - i;
    let n = if secs > 0 {
        secs
    } else {
        0
    };
    let q = n / b;
    vstd::arithmetic::div_mod::lemma_fundamental_div_mod(n, b);
    vstd::arithmetic::div_mod::lemma_mod_bound(n, b);
    vstd::arithmetic::div_mod::lemma_div_pos_is_pos(n, b);
    assert(b * q == q * b) by (nonlinear_arith);
    assert(back * bucket == (back * b) * 1_000_000_000) by (nonlinear_arith)
        requires
            bucket == b * 1_000_000_000,
    ;
    assert((back + 1) * bucket == (back * b + b) * 1_000_000_000) by (nonlinear_arith)
        requires
            bucket == b * 1_000_000_000,
    ;
    if q < back {
        assert(q * b + b <= back * b) by (nonlinear_arith)
            requires
                q + 1 <= back,
                b > 0,
        ;
    } else if q > back {
        assert(back * b + b <= q * b) by (nonlinear_arith)
            requires
                back + 1 <= q,
                b > 0,
        ;
    }
    assert(back * b >= 0) by (nonlinear_arith)
        requires
            back >= 0,
            b > 0,
    ;
    assert(back > 0 ==> back * b > 0) by (nonlinear_arith)
        requires
            back >= 0,
            b > 0,
    ;
}

/// One more row adds its bytes to the cell it counts in, and to no other;
/// without rows every cell is empty.
pub proof fn row_adds_to_its_cell(
    v: ServerTrafficSection,
    u: ServerTrafficSection,
    rows: Seq<VpnStatsRow>,
    row: VpnStatsRow,
    w: VpnSparklineWindow,
    sid_enc: Seq<char>,
    lang: Locale,
    now: UtcTime,
    i: int,
)
    requires
        crate::activity::server_traffic_section(v, rows, w, sid_enc, lang, now),
        crate::activity::server_traffic_section(u, rows.push(row), w, sid_enc, lang, now),
        w.bucket_hours > 0,
        0 <= i < w.cells,
    ensures
        v.series@.len() == w.cells,
        u.series@[i] == v.series@[i] + (if crate::activity::clamped_cell(now, row.ts, w) == i {
            crate::numbers::clipped(row.upload_bytes + row.download_bytes) as int
        } else {
            0
        }),
        rows.len() == 0 ==> v.series@[i] == 0,
        u.up == crate::numbers::clipped(v.up + row.upload_bytes),
        u.down == crate::numbers::clipped(v.down + row.download_bytes),
        rows.len() == 0 ==> v.up == 0 && v.down == 0,
        v.series@[i] > 0 ==> v.has_data,
        v.has_data ==> exists|k: int| 0 <= k < v.series@.len() && #[trigger] v.series@[k] > 0,
        lang is En ==> v.window_label == w.label_en,
        lang is Ru ==> v.window_label == w.label_ru,
        crate::traffic::picker_of(
            v.picker@,
            "/admin/servers/"@ + sid_enc + "/activity"@,
            w.slug@,
            lang,
        ),
{
    let more = rows.push(row);
    lemma_prefix(rows, row, now, w, i, rows.len() as int);
    assert(more[rows.len() as int] == row);
    assert(u.series@[i] == crate::activity::bytes_in_cell(more, now, w, i, more.len() as int));
    assert(v.series@[i] == crate::activity::bytes_in_cell(rows, now, w, i, rows.len() as int));
    crate::laws::totals::totals_grow_by_rows(rows, row);
    crate::traffic::row_sums_are_counts(rows);
}

proof fn lemma_prefix(
    rows: Seq<VpnStatsRow>,
    row: VpnStatsRow,
    now: UtcTime,
    w: VpnSparklineWindow,
    i: int,
    n: int,
)
    requires
        0 <= n <= rows.len(),
    ensures
        crate::activity::bytes_in_cell(rows.push(row), now, w, i, n)
            == crate::activity::bytes_in_cell(rows, now, w, i, n),
    decreases n,
{
    if n > 0 {
        lemma_prefix(rows, row, now, w, i, n - 1);
    }
}

/// The bootstrap of a server is recorded by the action `bootstrap`, or by any
/// action that begins with `server.bootstrap`.
pub proof fn bootstrap_actions(rest: Seq<char>, action: Seq<char>)
    ensures
        crate::activity::is_bootstrap("server.bootstrap"@ + rest),
        crate::activity::is_bootstrap("bootstrap"@),
        crate::activity::is_bootstrap(action) ==> action == "bootstrap"@ || exists|r: Seq<char>|
            action == #[trigger] ("server.bootstrap"@ + r),
{
    let p = "server.bootstrap"@;
    assert((p + rest).take(p.len() as int) =~= p);
    assert(p.is_prefix_of(p + rest));
    if p.is_prefix_of(action) {
        assert(action =~= p + action.skip(p.len() as int));
    }
}

/// Where a hundred times the gap does not fit in 64 bits the largest number
/// that does stands for it; a window of no length holds no bytes.
pub proof fn limits_of_the_accounting(
    gap: u64,
    total: u64,
    p: int,
    v: ServerTrafficSection,
    rows: Seq<VpnStatsRow>,
    w: VpnSparklineWindow,
    sid_enc: Seq<char>,
    lang: Locale,
    now: UtcTime,
    i: int,
)
    requires
        p == crate::activity::gap_pct(gap, total),
        crate::activity::server_traffic_section(v, rows, w, sid_enc, lang, now),
    ensures
        gap * 100 > u64::MAX && total > 0 && p < 100 ==> p * total <= u64::MAX < (p + 1) * total,
        gap * 100 > u64::MAX && total > 0 && p == 100 ==> 100 * total <= u64::MAX,
        w.bucket_hours == 0 && 0 <= i < w.cells ==> v.series@[i] == 0,
{
    if total > 0 {
        let n = crate::numbers::clipped(gap * 100) as int;
        let d = total as int;
        let q = n / d;
        vstd::arithmetic::div_mod::lemma_fundamental_div_mod(n, d);
        vstd::arithmetic::div_mod::lemma_mod_bound(n, d);
        assert(d * q == q * d) by (nonlinear_arith);
        assert((q + 1) * d == q * d + d) by (nonlinear_arith);
        if q >= 100 {
            assert(100 * d <= q * d) by (nonlinear_arith)
                requires
                    q >= 100,
                    d > 0,
            ;
        }
    }
}

} // verus!
