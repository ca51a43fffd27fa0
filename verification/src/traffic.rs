//! Traffic windows, bucketed series, the bar chart, monthly caps and the
//! month-end projection.
use crate::lists::distinct_sorted;
use crate::locale::{tr, Locale};
use crate::numbers::{greatest_of, percent_of, total_of};
use crate::text::{cat3, cat4, dec, same};
use crate::time::{date_of, days_in_month, format_at, truncate, utc_now, UtcTime};
use vstd::prelude::*;

verus! {

/// A fixed grid of cells, each `bucket_hours` long, the newest ending now.
#[derive(Clone, Copy, Debug)]
pub struct VpnSparklineWindow {
    /// Tab id in the URL.
    pub slug: &'static str,
    pub label_en: &'static str,
    pub label_ru: &'static str,
    /// Cells in the grid.
    pub cells: u32,
    /// Hours covered by each cell.
    pub bucket_hours: u32,
    pub per_bucket_en: &'static str,
    pub per_bucket_ru: &'static str,
}

/// The last day, hour by hour.
pub open spec fn day_window() -> VpnSparklineWindow {
    VpnSparklineWindow {
        slug: "24h",
        label_en: "24h",
        label_ru: "24ч",
        cells: 24,
        bucket_hours: 1,
        per_bucket_en: "per hour",
        per_bucket_ru: "в час",
    }
}

/// The last week, day by day.
pub open spec fn week_window() -> VpnSparklineWindow {
    VpnSparklineWindow {
        slug: "7d",
        label_en: "7 days",
        label_ru: "7 дней",
        cells: 7,
        bucket_hours: 24,
        per_bucket_en: "per day",
        per_bucket_ru: "в сутки",
    }
}

/// The last thirty days, day by day.
pub open spec fn month_window() -> VpnSparklineWindow {
    VpnSparklineWindow {
        slug: "30d",
        label_en: "30 days",
        label_ru: "30 дней",
        cells: 30,
        bucket_hours: 24,
        per_bucket_en: "per day",
        per_bucket_ru: "в сутки",
    }
}

/// Everything, in thirty-day buckets.
pub open spec fn all_window() -> VpnSparklineWindow {
    VpnSparklineWindow {
        slug: "all",
        label_en: "all",
        label_ru: "всё",
        cells: 30,
        bucket_hours: 720,
        per_bucket_en: "per month",
        per_bucket_ru: "в месяц",
    }
}

/// The selectable windows, in tab order.
pub open spec fn windows() -> Seq<VpnSparklineWindow> {
    seq![day_window(), week_window(), month_window(), all_window()]
}

/// The selectable windows, in tab order.
pub fn vpn_sparkline_windows() -> (r: Vec<VpnSparklineWindow>)
    ensures
        r@ == windows(),
{
    vec![
        VpnSparklineWindow {
            slug: "24h",
            label_en: "24h",
            label_ru: "24ч",
            cells: 24,
            bucket_hours: 1,
            per_bucket_en: "per hour",
            per_bucket_ru: "в час",
        },
        VpnSparklineWindow {
            slug: "7d",
            label_en: "7 days",
            label_ru: "7 дней",
            cells: 7,
            bucket_hours: 24,
            per_bucket_en: "per day",
            per_bucket_ru: "в сутки",
        },
        VpnSparklineWindow {
            slug: "30d",
            label_en: "30 days",
            label_ru: "30 дней",
            cells: 30,
            bucket_hours: 24,
            per_bucket_en: "per day",
            per_bucket_ru: "в сутки",
        },
        VpnSparklineWindow {
            slug: "all",
            label_en: "all",
            label_ru: "всё",
            cells: 30,
            bucket_hours: 720,
            per_bucket_en: "per month",
            per_bucket_ru: "в месяц",
        },
    ]
}

/// The window a slug selects; the day window for anything unknown.
pub open spec fn picked_window(slug: Option<Seq<char>>) -> VpnSparklineWindow {
    match slug {
        None => day_window(),
        Some(s) => if s == "7d"@ {
            week_window()
        } else if s == "30d"@ {
            month_window()
        } else if s == "all"@ {
            all_window()
        } else {
            day_window()
        },
    }
}

/// The window a slug selects; the day window for anything unknown.
pub fn pick_vpn_sparkline_window(slug: Option<&str>) -> (r: VpnSparklineWindow)
    ensures
        r == picked_window(crate::text::opt_text(slug)),
{
    let all = vpn_sparkline_windows();
    match slug {
        Some(s) => {
            if same(s, all[1].slug) {
                all[1]
            } else if same(s, all[2].slug) {
                all[2]
            } else if same(s, all[3].slug) {
                all[3]
            } else {
                all[0]
            }
        },
        None => all[0],
    }
}

/// Every window is picked by its own slug and has at most thirty cells; what
/// is no slug of a window picks the first.
pub proof fn windows_picked_by_slug(slug: Seq<char>)
    ensures
        forall|k: int|
            #![trigger windows()[k]]
            0 <= k < windows().len() ==> picked_window(Some(windows()[k].slug@)) == windows()[k],
        (forall|k: int| 0 <= k < windows().len() ==> #[trigger] windows()[k].slug@ != slug)
            ==> picked_window(Some(slug)) == windows()[0],
        picked_window(None) == windows()[0],
        picked_window(Some(slug)).cells <= 30,
{
    reveal_strlit("24h");
    reveal_strlit("7d");
    reveal_strlit("30d");
    reveal_strlit("all");
    assert("30d"@[0] != "24h"@[0]);
    assert("all"@[0] != "24h"@[0]);
    assert("all"@[0] != "30d"@[0]);
    assert("24h"@.len() == 3 && "7d"@.len() == 2);
    if forall|k: int| 0 <= k < windows().len() ==> #[trigger] windows()[k].slug@ != slug {
        assert(windows()[1].slug@ != slug);
        assert(windows()[2].slug@ != slug);
        assert(windows()[3].slug@ != slug);
    }
}

/// One snapshot of a user's traffic on a server.
pub struct VpnStatsRow {
    pub ts: UtcTime,
    pub server_id: String,
    pub upload_bytes: u64,
    pub download_bytes: u64,
    pub active_connections: u32,
}

/// Nanoseconds covered by one cell.
pub open spec fn cell_span(w: VpnSparklineWindow) -> int {
    w.bucket_hours * 3600 * crate::time::NANOS
}

/// The cell that `ts` falls in when the newest cell holds `now`; cells count
/// from the oldest.
pub open spec fn cell_of(now: UtcTime, ts: UtcTime, w: VpnSparklineWindow) -> Option<int> {
    match (
        crate::time::truncated(now.stamp(), cell_span(w)),
        crate::time::truncated(ts.stamp(), cell_span(w)),
    ) {
        (Some(a), Some(b)) => {
            let ago = (a - b) / cell_span(w);
            if 0 <= ago < w.cells {
                Some(w.cells - 1 - ago)
            } else {
                None
            }
        },
        _ => None,
    }
}

/// Bytes uploaded in cell `i`.
pub open spec fn up_in(rows: Seq<VpnStatsRow>, now: UtcTime, w: VpnSparklineWindow, i: int) -> int
    decreases rows.len(),
{
    if rows.len() == 0 {
        0
    } else {
        up_in(rows.drop_last(), now, w, i) + (if cell_of(now, rows.last().ts, w) == Some(i) {
            rows.last().upload_bytes as int
        } else {
            0
        })
    }
}

/// Bytes downloaded in cell `i`.
pub open spec fn down_in(rows: Seq<VpnStatsRow>, now: UtcTime, w: VpnSparklineWindow, i: int) -> int
    decreases rows.len(),
{
    if rows.len() == 0 {
        0
    } else {
        down_in(rows.drop_last(), now, w, i) + (if cell_of(now, rows.last().ts, w) == Some(i) {
            rows.last().download_bytes as int
        } else {
            0
        })
    }
}

proof fn lemma_sums_nonneg(rows: Seq<VpnStatsRow>, now: UtcTime, w: VpnSparklineWindow, i: int)
    ensures
        up_in(rows, now, w, i) >= 0,
        down_in(rows, now, w, i) >= 0,
    decreases rows.len(),
{
    if rows.len() > 0 {
        lemma_sums_nonneg(rows.drop_last(), now, w, i);
    }
}

proof fn lemma_cells_apart(a: int, b: int, bucket: int)
    requires
        bucket > 0,
        a % (bucket * crate::time::NANOS) == 0,
        b % (bucket * crate::time::NANOS) == 0,
    ensures
        a - b < 0 ==> crate::time::whole_seconds(a - b) < 0 && (a - b) / (bucket
            * crate::time::NANOS) < 0,
        a - b >= 0 ==> crate::time::whole_seconds(a - b) / bucket == (a - b) / (bucket
            * crate::time::NANOS),
{
    let nanos = crate::time::NANOS as int;
    let span = bucket * nanos;
    assert(span >= nanos) by (nonlinear_arith)
        requires
            bucket >= 1,
            nanos > 0,
            span == bucket * nanos,
    ;
    vstd::arithmetic::div_mod::lemma_fundamental_div_mod(a, span);
    vstd::arithmetic::div_mod::lemma_fundamental_div_mod(b, span);
    let q = a / span - b / span;
    assert(a - b == span * q) by (nonlinear_arith)
        requires
            a == span * (a / span),
            b == span * (b / span),
            q == a / span - b / span,
    ;
    if a - b < 0 {
        assert(q <= -1) by (nonlinear_arith)
            requires
                span * q < 0,
                span > 0,
        ;
        assert(span * q <= -span) by (nonlinear_arith)
            requires
                q <= -1,
                span > 0,
        ;
        assert((a - b) / span < 0) by (nonlinear_arith)
            requires
                a - b < 0,
                span > 0,
        ;
    } else {
        vstd::arithmetic::div_mod::lemma_div_denominator(a - b, nanos, bucket);
        assert(nanos * bucket == span) by (nonlinear_arith)
            requires
                span == bucket * nanos,
        ;
    }
}

proof fn lemma_truncated_is_multiple(stamp: int, span: int)
    requires
        span > 0,
    ensures
        (stamp - stamp % span) % span == 0,
        0 <= stamp % span < span,
{
    vstd::arithmetic::div_mod::lemma_fundamental_div_mod(stamp, span);
    vstd::arithmetic::div_mod::lemma_mod_multiples_basic(stamp / span, span);
    vstd::arithmetic::div_mod::lemma_mod_bound(stamp, span);
    assert(stamp - stamp % span == (stamp / span) * span) by (nonlinear_arith)
        requires
            stamp == span * (stamp / span) + stamp % span,
    ;
}

/// The cell of `ts`, where `now` rounded down is `newest`.
fn cell_index(
    newest: &UtcTime,
    ts: UtcTime,
    w: VpnSparklineWindow,
    Ghost(now): Ghost<UtcTime>,
) -> (r: Option<usize>)
    requires
        crate::time::truncated(now.stamp(), cell_span(w)) == Some(newest.stamp()),
    ensures
        match r {
            Some(i) => cell_of(now, ts, w) == Some(i as int) && i < w.cells,
            None => cell_of(now, ts, w) is None,
        },
{
    let bucket: i64 = w.bucket_hours as i64 * 3600;
    match truncate(ts, bucket) {
        None => None,
        Some(start) => {
            let diff: i64 = newest.seconds_since(&start);
            proof {
                lemma_truncated_is_multiple(now.stamp(), cell_span(w));
                lemma_truncated_is_multiple(ts.stamp(), cell_span(w));
                lemma_cells_apart(newest.stamp(), start.stamp(), bucket as int);
            }
            if diff < 0 {
                return None;
            }
            let ago: u64 = diff as u64 / bucket as u64;
            if ago < w.cells as u64 {
                Some((w.cells as u64 - 1 - ago) as usize)
            } else {
                None
            }
        },
    }
}

/// Bytes in both directions per cell, each clipped to 64 bits.
pub open spec fn trend_cells(rows: Seq<VpnStatsRow>, now: UtcTime, w: VpnSparklineWindow) -> Seq<
    u64,
> {
    Seq::new(
        w.cells as nat,
        |i: int| crate::numbers::clipped(up_in(rows, now, w, i) + down_in(rows, now, w, i)),
    )
}

/// Bytes uploaded per cell, each clipped to 64 bits.
pub open spec fn up_cells(rows: Seq<VpnStatsRow>, now: UtcTime, w: VpnSparklineWindow) -> Seq<u64> {
    Seq::new(w.cells as nat, |i: int| crate::numbers::clipped(up_in(rows, now, w, i)))
}

/// Bytes downloaded per cell, each clipped to 64 bits.
pub open spec fn down_cells(rows: Seq<VpnStatsRow>, now: UtcTime, w: VpnSparklineWindow) -> Seq<
    u64,
> {
    Seq::new(w.cells as nat, |i: int| crate::numbers::clipped(down_in(rows, now, w, i)))
}

proof fn lemma_no_cells(rows: Seq<VpnStatsRow>, now: UtcTime, w: VpnSparklineWindow, i: int)
    requires
        crate::time::truncated(now.stamp(), cell_span(w)) is None,
    ensures
        up_in(rows, now, w, i) == 0,
        down_in(rows, now, w, i) == 0,
    decreases rows.len(),
{
    if rows.len() > 0 {
        lemma_no_cells(rows.drop_last(), now, w, i);
    }
}

/// Bytes in both directions per cell with the newest cell holding `now`; all
/// zero where `now` cannot be bucketed.
pub fn vpn_traffic_trend_series_at(
    rows: &Vec<VpnStatsRow>,
    w: VpnSparklineWindow,
    now: UtcTime,
) -> (r: Vec<u64>)
    ensures
        r@ == trend_cells(rows@, now, w),
{
    let mut cells: Vec<u64> = vec![0u64; w.cells as usize];
    let newest = match truncate(now, w.bucket_hours as i64 * 3600) {
        Some(t) => t,
        None => {
            proof {
                assert forall|i: int| 0 <= i < w.cells implies cells@[i] == trend_cells(
                    rows@,
                    now,
                    w,
                )[i] by {
                    lemma_no_cells(rows@, now, w, i);
                }
            }
            return cells;
        },
    };
    let mut k: usize = 0;
    while k < rows.len()
        invariant
            k <= rows.len(),
            cells.len() == w.cells,
            crate::time::truncated(now.stamp(), cell_span(w)) == Some(newest.stamp()),
            forall|i: int|
                0 <= i < w.cells ==> #[trigger] cells@[i] == crate::numbers::clipped(
                    up_in(rows@.take(k as int), now, w, i) + down_in(
                        rows@.take(k as int),
                        now,
                        w,
                        i,
                    ),
                ),
        decreases rows.len() - k,
    {
        assert(rows@.take(k + 1).drop_last() == rows@.take(k as int));
        let ghost before = cells@;
        proof {
            assert forall|i: int| 0 <= i < w.cells implies up_in(rows@.take(k as int), now, w, i)
                >= 0 && down_in(rows@.take(k as int), now, w, i) >= 0 by {
                lemma_sums_nonneg(rows@.take(k as int), now, w, i);
            }
        }
        match cell_index(&newest, rows[k].ts, w, Ghost(now)) {
            None => {},
            Some(i) => {
                let both: u64 = rows[k].upload_bytes.saturating_add(rows[k].download_bytes);
                assert(before[i as int] == crate::numbers::clipped(
                    up_in(rows@.take(k as int), now, w, i as int) + down_in(
                        rows@.take(k as int),
                        now,
                        w,
                        i as int,
                    ),
                ));
                let grown: u64 = cells[i].saturating_add(both);
                cells.set(i, grown);
            },
        }
        k = k + 1;
    }
    assert(rows@.take(k as int) == rows@);
    assert(cells@ =~= trend_cells(rows@, now, w));
    cells
}

/// Bytes in both directions per cell with the newest cell holding the
/// current instant.
pub fn vpn_traffic_trend_series(rows: &Vec<VpnStatsRow>, w: VpnSparklineWindow) -> (r: Vec<u64>)
    ensures
        exists|now: UtcTime|
            0 <= now.seconds() && r@ == #[trigger] trend_cells(rows@, now, w),
{
    let now = utc_now();
    vpn_traffic_trend_series_at(rows, w, now)
}

/// 1024 bytes.
pub const KIB: u64 = 1024;

/// 1024 KiB.
pub const MIB: u64 = 1_048_576;

/// 1024 MiB.
pub const GIB: u64 = 1_073_741_824;

/// 1024 GiB.
pub const TIB: u64 = 1_099_511_627_776;

/// `u` is 1, 2, 5, 10, 20 or 50 units.
pub open spec fn round_multiple(u: int, unit: int) -> bool {
    u == unit || u == 2 * unit || u == 5 * unit || u == 10 * unit || u == 20 * unit || u == 50
        * unit
}

/// `u` is a round byte count: a round multiple of KiB, MiB, GiB or TiB.
pub open spec fn is_nice(u: int) -> bool {
    round_multiple(u, KIB as int) || round_multiple(u, MIB as int) || round_multiple(u, GIB as int)
        || round_multiple(u, TIB as int)
}

/// `r` is the smallest round byte count from `n` on; beyond the largest it is
/// `n` itself.
pub open spec fn nice_ceiling(n: int, r: int) -> bool {
    if n <= 50 * TIB {
        is_nice(r) && r >= n && forall|u: int| #[trigger] is_nice(u) && u >= n ==> r <= u
    } else {
        r == n
    }
}

fn round_up(n: u64, unit: u64) -> (r: Option<u64>)
    requires
        0 < unit <= TIB,
    ensures
        match r {
            Some(u) => round_multiple(u as int, unit as int) && u >= n && forall|v: int| #[trigger]
                round_multiple(v, unit as int) && v >= n ==> u <= v,
            None => n > 50 * unit,
        },
        r matches Some(u) ==> u <= 50 * unit,
{
    if n <= unit {
        Some(unit)
    } else if n <= 2 * unit {
        Some(2 * unit)
    } else if n <= 5 * unit {
        Some(5 * unit)
    } else if n <= 10 * unit {
        Some(10 * unit)
    } else if n <= 20 * unit {
        Some(20 * unit)
    } else if n <= 50 * unit {
        Some(50 * unit)
    } else {
        None
    }
}

/// The smallest round byte count from `n` on, at least 1 KiB; `n` itself
/// beyond 50 TiB, where there is none.
pub fn nice_byte_ceiling(n: u64) -> (r: u64)
    ensures
        nice_ceiling(n as int, r as int),
{
    match round_up(n, KIB) {
        Some(u) => {
            return u;
        },
        None => {},
    }
    match round_up(n, MIB) {
        Some(u) => {
            return u;
        },
        None => {},
    }
    match round_up(n, GIB) {
        Some(u) => {
            return u;
        },
        None => {},
    }
    match round_up(n, TIB) {
        Some(u) => u,
        None => n,
    }
}

/// The axis ceiling never falls below the value, is at least 1 KiB, does not
/// fall when the value grows, is its own ceiling, and is the only one.
pub proof fn nice_ceiling_laws(n: int, r: int, m: int, q: int)
    requires
        0 <= n <= m,
        nice_ceiling(n, r),
        nice_ceiling(m, q),
    ensures
        r >= n,
        r >= KIB,
        r <= q,
        nice_ceiling(r, r),
        n == m ==> r == q,
{
    assert(is_nice(50 * TIB));
    assert(is_nice(r) ==> r <= 50 * TIB);
}

/// Seconds that the zone of the pages, Moscow time, is east of UTC.
pub const MSK_OFFSET: i32 = 10_800;

/// `v` marks a vertical axis that ends at `y_max` in quarters: at 0, 25, 50, 75
/// and 100 % of it, in whole bytes.
pub open spec fn quarters(v: Seq<u64>, y_max: u64) -> bool {
    v.len() == 5 && forall|t: int| 0 <= t < 5 ==> #[trigger] v[t] == y_max * t / 4
}

/// The values that the vertical axis is labelled with: 0, 25, 50, 75 and 100 %
/// of its top, in whole bytes.
pub fn axis_values(y_max: u64) -> (r: Vec<u64>)
    ensures
        quarters(r@, y_max),
{
    let top: u128 = y_max as u128;
    vec![0, y_max / 4, y_max / 2, (top * 3 / 4) as u64, y_max]
}

/// The values on the axis start at zero, end at its top, and never fall.
pub proof fn axis_values_rise_to_the_top(v: Seq<u64>, y_max: u64, i: int, j: int)
    requires
        quarters(v, y_max),
        0 <= i <= j < 5,
    ensures
        v[0] == 0,
        v[4] == y_max,
        v[i] <= v[j],
{
    assert(y_max * i <= y_max * j) by (nonlinear_arith)
        requires
            0 <= i <= j,
    ;
}

/// Format pattern of the axis label for a bucket length.
pub open spec fn axis_pattern(bucket_hours: u32) -> &'static str {
    if bucket_hours == 1 {
        "%H:%M"
    } else if bucket_hours == 24 {
        "%b %d"
    } else {
        "%b %Y"
    }
}

/// The axis label of the bucket that starts at second `start`, in the zone
/// `offset` seconds east of UTC: the time of day for hourly buckets, the day
/// for daily ones, the month otherwise.
pub fn x_axis_tick_label(start: i64, bucket_hours: u32, offset: i32) -> (r: String)
    requires
        crate::time::MIN_SECONDS <= start <= crate::time::MAX_SECONDS,
        -86_400 < offset < 86_400,
    ensures
        r@ == crate::time::calendar_text(start as int, offset as int, axis_pattern(bucket_hours)@),
        bucket_hours == 1 ==> r@ == crate::time::clock_text(start + offset),
{
    let pattern = if bucket_hours == 1 {
        "%H:%M"
    } else if bucket_hours == 24 {
        "%b %d"
    } else {
        "%b %Y"
    };
    format_at(start, offset, pattern)
}

/// A stacked bar chart of traffic.
pub struct TrafficChart {
    /// What one bar covers, in words.
    pub per_bucket: &'static str,
    /// Upload per cell, oldest first.
    pub up: Vec<u64>,
    /// Download per cell, oldest first.
    pub down: Vec<u64>,
    /// Both directions per cell.
    pub totals: Vec<u64>,
    /// The tallest bar.
    pub raw_max: u64,
    /// The sum of all bars.
    pub total: u128,
    /// Top of the vertical axis.
    pub y_max: u64,
    /// The values that the vertical axis is labelled with, from the bottom up.
    pub y_values: Vec<u64>,
    /// Second at which each cell starts.
    pub starts: Vec<i64>,
    /// Label of each cell.
    pub labels: Vec<String>,
    /// Whether the axis shows the label of a cell.
    pub labelled: Vec<bool>,
}

/// Cells between two labels of the horizontal axis of window `w`: six hours,
/// one day or five days, six months.
pub open spec fn label_step(w: VpnSparklineWindow) -> int {
    if w.cells <= 8 {
        1
    } else if w.cells <= 16 {
        2
    } else if w.bucket_hours == 24 && w.cells <= 32 {
        5
    } else {
        6
    }
}

/// Second at which cell `i` starts.
pub open spec fn cell_start(now: UtcTime, w: VpnSparklineWindow, i: int) -> int {
    crate::time::truncated(now.stamp(), cell_span(w))->0 / (crate::time::NANOS as int) - (w.cells
        - 1 - i) * (w.bucket_hours * 3600)
}

/// `c` is the chart of `rows` with the newest cell holding `now`; there is
/// none where `now` cannot be bucketed.
pub open spec fn chart_of(
    c: Option<TrafficChart>,
    rows: Seq<VpnStatsRow>,
    w: VpnSparklineWindow,
    lang: Locale,
    offset: i32,
    now: UtcTime,
) -> bool {
    match c {
        None => crate::time::truncated(now.stamp(), cell_span(w)) is None,
        Some(c) => {
            &&& crate::time::truncated(now.stamp(), cell_span(w)) is Some
            &&& c.per_bucket == crate::locale::in_language(lang, w.per_bucket_en, w.per_bucket_ru)
            &&& c.up@ == up_cells(rows, now, w)
            &&& c.down@ == down_cells(rows, now, w)
            &&& c.totals@ == trend_cells(rows, now, w)
            &&& c.raw_max == crate::numbers::greatest(c.totals@)
            &&& c.total == crate::numbers::sum_of(c.totals@)
            &&& nice_ceiling(c.raw_max as int, c.y_max as int)
            &&& quarters(c.y_values@, c.y_max)
            &&& c.starts@.len() == w.cells
            &&& c.labels@.len() == w.cells
            &&& c.labelled@.len() == w.cells
            &&& forall|i: int|
                0 <= i < w.cells ==> #[trigger] c.starts@[i] == cell_start(now, w, i)
            &&& forall|i: int|
                0 <= i < w.cells ==> (#[trigger] c.labels@[i])@ == crate::time::calendar_text(
                    cell_start(now, w, i),
                    offset as int,
                    axis_pattern(w.bucket_hours)@,
                )
            &&& forall|i: int|
                0 <= i < w.cells ==> #[trigger] c.labelled@[i] == (i % label_step(w) == 0)
        },
    }
}

proof fn lemma_cell_start_in_range(now: UtcTime, w: VpnSparklineWindow, i: int, newest: int)
    requires
        w.cells * w.bucket_hours * 3600 <= 8_000_000_000_000,
        crate::time::truncated(now.stamp(), cell_span(w)) == Some(newest),
        0 <= i < w.cells,
    ensures
        crate::time::MIN_SECONDS <= cell_start(now, w, i) <= crate::time::MAX_SECONDS,
        0 <= (w.cells - 1 - i) * (w.bucket_hours * 3600) <= 8_000_000_000_000,
{
    lemma_truncated_is_multiple(now.stamp(), cell_span(w));
    let back = w.cells - 1 - i;
    let hours = w.bucket_hours as int;
    assert(0 <= back * (hours * 3600) <= w.cells * hours * 3600) by (nonlinear_arith)
        requires
            0 <= back <= w.cells,
            hours >= 0,
    ;
}

/// The chart of `rows` with the newest cell holding `now`, axis labels in the
/// zone `offset` seconds east of UTC.
pub fn vpn_traffic_chart_at(
    rows: &Vec<VpnStatsRow>,
    w: VpnSparklineWindow,
    lang: Locale,
    offset: i32,
    now: UtcTime,
) -> (r: Option<TrafficChart>)
    requires
        w.cells * w.bucket_hours * 3600 <= 8_000_000_000_000,
        -86_400 < offset < 86_400,
    ensures
        chart_of(r, rows@, w, lang, offset, now),
{
    let bucket: i64 = w.bucket_hours as i64 * 3600;
    let newest = match truncate(now, bucket) {
        Some(t) => t,
        None => {
            return None;
        },
    };
    let mut up: Vec<u64> = vec![0u64; w.cells as usize];
    let mut down: Vec<u64> = vec![0u64; w.cells as usize];
    let mut k: usize = 0;
    while k < rows.len()
        invariant
            k <= rows.len(),
            up.len() == w.cells,
            down.len() == w.cells,
            crate::time::truncated(now.stamp(), cell_span(w)) == Some(newest.stamp()),
            forall|i: int|
                0 <= i < w.cells ==> #[trigger] up@[i] == crate::numbers::clipped(
                    up_in(rows@.take(k as int), now, w, i),
                ),
            forall|i: int|
                0 <= i < w.cells ==> #[trigger] down@[i] == crate::numbers::clipped(
                    down_in(rows@.take(k as int), now, w, i),
                ),
        decreases rows.len() - k,
    {
        assert(rows@.take(k + 1).drop_last() == rows@.take(k as int));
        proof {
            assert forall|i: int| 0 <= i < w.cells implies up_in(rows@.take(k as int), now, w, i)
                >= 0 && down_in(rows@.take(k as int), now, w, i) >= 0 by {
                lemma_sums_nonneg(rows@.take(k as int), now, w, i);
            }
        }
        match cell_index(&newest, rows[k].ts, w, Ghost(now)) {
            None => {},
            Some(i) => {
                assert(up@[i as int] == crate::numbers::clipped(
                    up_in(rows@.take(k as int), now, w, i as int),
                ));
                assert(down@[i as int] == crate::numbers::clipped(
                    down_in(rows@.take(k as int), now, w, i as int),
                ));
                let u: u64 = up[i].saturating_add(rows[k].upload_bytes);
                let d: u64 = down[i].saturating_add(rows[k].download_bytes);
                up.set(i, u);
                down.set(i, d);
            },
        }
        k = k + 1;
    }
    assert(rows@.take(k as int) == rows@);
    let mut totals: Vec<u64> = Vec::new();
    let mut starts: Vec<i64> = Vec::new();
    let mut labels: Vec<String> = Vec::new();
    let mut labelled: Vec<bool> = Vec::new();
    let newest_secs: i64 = newest.secs();
    let step: usize = if w.cells <= 8 {
        1
    } else if w.cells <= 16 {
        2
    } else if w.bucket_hours == 24 && w.cells <= 32 {
        5
    } else {
        6
    };
    let cells: usize = w.cells as usize;
    let mut i: usize = 0;
    while i < cells
        invariant
            i <= cells,
            cells == w.cells,
            bucket == w.bucket_hours * 3600,
            step == label_step(w),
            step > 0,
            w.cells * w.bucket_hours * 3600 <= 8_000_000_000_000,
            -86_400 < offset < 86_400,
            crate::time::truncated(now.stamp(), cell_span(w)) == Some(newest.stamp()),
            newest_secs == newest.stamp() / (crate::time::NANOS as int),
            up@.len() == cells,
            down@.len() == cells,
            totals@.len() == i,
            starts@.len() == i,
            labels@.len() == i,
            labelled@.len() == i,
            forall|j: int|
                0 <= j < i ==> #[trigger] totals@[j] == crate::numbers::clipped(up@[j] + down@[j]),
            forall|j: int| 0 <= j < i ==> #[trigger] starts@[j] == cell_start(now, w, j),
            forall|j: int|
                0 <= j < i ==> (#[trigger] labels@[j])@ == crate::time::calendar_text(
                    cell_start(now, w, j),
                    offset as int,
                    axis_pattern(w.bucket_hours)@,
                ),
            forall|j: int|
                0 <= j < i ==> #[trigger] labelled@[j] == (j % label_step(w) == 0),
        decreases cells - i,
    {
        proof {
            lemma_cell_start_in_range(now, w, i as int, newest.stamp());
        }
        let back: i64 = (cells - 1 - i) as i64 * bucket;
        let start: i64 = newest_secs - back;
        totals.push(up[i].saturating_add(down[i]));
        labels.push(x_axis_tick_label(start, w.bucket_hours, offset));
        starts.push(start);
        labelled.push(i % step == 0);
        i = i + 1;
    }
    proof {
        assert(up@ =~= up_cells(rows@, now, w));
        assert(down@ =~= down_cells(rows@, now, w));
        assert forall|j: int| 0 <= j < w.cells implies totals@[j] == trend_cells(rows@, now, w)[j] by {
            lemma_sums_nonneg(rows@, now, w, j);
            assert(up@[j] == up_cells(rows@, now, w)[j]);
            assert(down@[j] == down_cells(rows@, now, w)[j]);
        }
        assert(totals@ =~= trend_cells(rows@, now, w));
    }
    let raw_max: u64 = greatest_of(&totals);
    let total: u128 = total_of(&totals);
    let y_max: u64 = nice_byte_ceiling(raw_max);
    Some(
        TrafficChart {
            per_bucket: tr(lang, w.per_bucket_en, w.per_bucket_ru),
            up,
            down,
            totals,
            raw_max,
            total,
            y_max,
            y_values: axis_values(y_max),
            starts,
            labels,
            labelled,
        },
    )
}

/// The chart of `rows` with the newest cell holding the current instant.
pub fn vpn_traffic_chart(
    rows: &Vec<VpnStatsRow>,
    w: VpnSparklineWindow,
    lang: Locale,
    offset: i32,
) -> (r: Option<TrafficChart>)
    requires
        w.cells * w.bucket_hours * 3600 <= 8_000_000_000_000,
        -86_400 < offset < 86_400,
    ensures
        exists|now: UtcTime|
            0 <= now.seconds() && #[trigger] chart_of(r, rows@, w, lang, offset, now),
{
    let now = utc_now();
    vpn_traffic_chart_at(rows, w, lang, offset, now)
}

/// The axis is labelled every six hours of a day, every day of a week, every
/// five days of a month, and every six months of the whole record.
pub proof fn axis_labels_by_window()
    ensures
        label_step(windows()[0]) * windows()[0].bucket_hours == 6,
        label_step(windows()[1]) * windows()[1].bucket_hours == 24,
        label_step(windows()[2]) * windows()[2].bucket_hours == 5 * 24,
        label_step(windows()[3]) * windows()[3].bucket_hours == 6 * 30 * 24,
{
}

/// The compact series and the chart agree: at the same instant each cell of
/// the series is the height of the chart's bar, the clipped sum of its two
/// parts.
pub proof fn trend_agrees_with_chart(
    c: TrafficChart,
    rows: Seq<VpnStatsRow>,
    w: VpnSparklineWindow,
    lang: Locale,
    offset: i32,
    now: UtcTime,
    i: int,
)
    requires
        chart_of(Some(c), rows, w, lang, offset, now),
        0 <= i < w.cells,
    ensures
        trend_cells(rows, now, w).len() == c.totals@.len(),
        trend_cells(rows, now, w)[i] == c.totals@[i],
        c.totals@[i] == crate::numbers::clipped(c.up@[i] + c.down@[i]),
        c.totals@[i] <= c.raw_max <= c.y_max,
{
    lemma_sums_nonneg(rows, now, w, i);
    crate::numbers::greatest_bounds(c.totals@, i);
    nice_ceiling_laws(
        c.raw_max as int,
        c.y_max as int,
        c.raw_max as int,
        c.y_max as int,
    );
}

/// One tab of the window picker.
pub struct WindowTab {
    pub slug: &'static str,
    pub label: &'static str,
    /// The shown window; it is no link.
    pub active: bool,
    pub href: String,
}

/// `t` is the tab of window `w` on the page at `base_url`.
pub open spec fn tab_of(
    t: WindowTab,
    w: VpnSparklineWindow,
    base_url: Seq<char>,
    active_slug: Seq<char>,
    lang: Locale,
) -> bool {
    &&& t.slug == w.slug
    &&& t.label == crate::locale::in_language(lang, w.label_en, w.label_ru)
    &&& t.active == (w.slug@ == active_slug)
    &&& t.href@ == base_url + "?vpn_window="@ + w.slug@ + "#timeframe"@
}

/// `tabs` has one tab per window, in order.
pub open spec fn picker_of(
    tabs: Seq<WindowTab>,
    base_url: Seq<char>,
    active_slug: Seq<char>,
    lang: Locale,
) -> bool {
    &&& tabs.len() == windows().len()
    &&& forall|i: int|
        0 <= i < tabs.len() ==> tab_of(
            #[trigger] tabs[i],
            windows()[i],
            base_url,
            active_slug,
            lang,
        )
}

/// The tabs of the window picker of the page at `base_url`.
pub fn window_picker_section(base_url: &str, active_slug: &str, lang: Locale) -> (r: Vec<WindowTab>)
    ensures
        picker_of(r@, base_url@, active_slug@, lang),
{
    let all = vpn_sparkline_windows();
    let mut r: Vec<WindowTab> = Vec::new();
    let mut i: usize = 0;
    while i < all.len()
        invariant
            i <= all.len(),
            all@ == windows(),
            r.len() == i,
            forall|j: int|
                0 <= j < i ==> tab_of(
                    #[trigger] r@[j],
                    windows()[j],
                    base_url@,
                    active_slug@,
                    lang,
                ),
        decreases all.len() - i,
    {
        let w = all[i];
        r.push(
            WindowTab {
                slug: w.slug,
                label: tr(lang, w.label_en, w.label_ru),
                active: same(w.slug, active_slug),
                href: cat4(base_url, "?vpn_window=", w.slug, "#timeframe"),
            },
        );
        i = i + 1;
    }
    r
}

/// Whatever slug the page was asked for, the picker marks exactly the picked
/// window as active.
pub proof fn picker_marks_picked_window(
    tabs: Seq<WindowTab>,
    base_url: Seq<char>,
    slug: Option<Seq<char>>,
    lang: Locale,
    i: int,
)
    requires
        picker_of(tabs, base_url, picked_window(slug).slug@, lang),
        0 <= i < tabs.len(),
    ensures
        tabs[i].active <==> windows()[i] == picked_window(slug),
{
    reveal_strlit("24h");
    reveal_strlit("7d");
    reveal_strlit("30d");
    reveal_strlit("all");
    assert("30d"@[0] != "24h"@[0]);
    assert("all"@[0] != "24h"@[0]);
    assert("all"@[0] != "30d"@[0]);
    assert("24h"@.len() == 3 && "7d"@.len() == 2);
    assert(tab_of(tabs[i], windows()[i], base_url, picked_window(slug).slug@, lang));
}

/// Alert threshold, in percent of the cap, where a user has none.
pub const DEFAULT_TRAFFIC_THRESHOLD_PCT: u8 = 80;

/// Usage against a limit in words, `<used> / <limit> (<percent>%)`, from the
/// two byte counts and their rendered texts.
pub fn fmt_traffic_progress(used: u64, limit: u64, used_text: &str, limit_text: &str) -> (r: String)
    ensures
        r@ == used_text@ + " / "@ + limit_text@ + " ("@ + crate::text::dec_text(
            crate::numbers::percent(used as int, limit as int) as nat,
        ) + "%)"@,
{
    let pct: u32 = percent_of(used, limit);
    let shown = dec(pct as u64);
    let head = cat4(used_text, " / ", limit_text, " (");
    let r = cat3(head.as_str(), shown.as_str(), "%)");
    r
}

/// Month-to-date `used` bytes extended at the same daily pace to the whole
/// month, when day `day` of a month of `days` days is reached; nothing for no
/// traffic.
pub open spec fn projected(used: int, day: int, days: int) -> Option<u64> {
    if used == 0 {
        None
    } else {
        Some(crate::numbers::clipped(used * days / day))
    }
}

/// The month-end projection at `now`.
pub open spec fn month_end(used: int, now: UtcTime) -> Option<u64> {
    let date = crate::time::calendar_date(now.seconds());
    projected(used, date.2, crate::time::month_days(date.0, date.1))
}

/// The month-end projection on day `day` of the given month.
pub fn project_on(used: u64, year: i32, month: u32, day: u32) -> (r: Option<u64>)
    requires
        day >= 1,
    ensures
        r == projected(used as int, day as int, crate::time::month_days(year as int, month as int)),
{
    if used == 0 {
        return None;
    }
    let days: u32 = days_in_month(year, month);
    assert(used * days <= u64::MAX * 31) by (nonlinear_arith)
        requires
            used <= u64::MAX,
            0 <= days <= 31,
    ;
    let full: u128 = used as u128 * days as u128 / day as u128;
    proof {
        vstd::arithmetic::div_mod::lemma_div_pos_is_pos(used * days, day as int);
    }
    if full > u64::MAX as u128 {
        Some(u64::MAX)
    } else {
        Some(full as u64)
    }
}

/// The month-end projection at `now`.
pub fn project_month_end_at(used: u64, now: UtcTime) -> (r: Option<u64>)
    ensures
        r == month_end(used as int, now),
        r is None <==> used == 0,
        r matches Some(p) ==> p >= used,
{
    let date = date_of(now);
    proof {
        projection_laws(
            used as int,
            used as int,
            date.2 as int,
            crate::time::month_days(date.0 as int, date.1 as int),
        );
    }
    project_on(used, date.0, date.1, date.2)
}

/// The month-end projection at the current instant.
pub fn project_month_end(used: u64) -> (r: Option<u64>)
    ensures
        exists|now: UtcTime|
            0 <= now.seconds() && r == #[trigger] month_end(used as int, now),
        r is None <==> used == 0,
        r matches Some(p) ==> p >= used,
{
    let now = utc_now();
    project_month_end_at(used, now)
}

/// Within the month the projection never falls below what is used already,
/// and more usage never projects to less.
pub proof fn projection_laws(used: int, more: int, day: int, days: int)
    requires
        0 <= used <= more <= u64::MAX,
        1 <= day <= days,
    ensures
        projected(used, day, days) is None <==> used == 0,
        projected(used, day, days) matches Some(p) ==> used <= p,
        projected(used, day, days) matches Some(p) ==> projected(more, day, days) matches Some(q)
            && p <= q,
{
    assert(used * days >= used * day) by (nonlinear_arith)
        requires
            0 <= used,
            1 <= day <= days,
    ;
    assert(used * days / day >= used) by (nonlinear_arith)
        requires
            used * days >= used * day,
            day >= 1,
            used >= 0,
    ;
    assert(used * days <= more * days) by (nonlinear_arith)
        requires
            used <= more,
            days >= 1,
    ;
    vstd::arithmetic::div_mod::lemma_div_is_ordered(used * days, more * days, day);
}

/// How a user stands against the monthly cap.
#[derive(Clone, Copy, PartialEq, Eq, Structural, Debug)]
pub enum CapState {
    Under,
    Near,
    Over,
}

/// The estimate for the end of the month.
#[derive(Clone, Copy, PartialEq, Eq, Structural, Debug)]
pub struct CapProjection {
    pub bytes: u64,
    /// Percent of the cap.
    pub pct: u32,
    /// Whether the cap is on track to be exceeded.
    pub over: bool,
}

/// Usage against a configured cap.
#[derive(Clone, Copy, PartialEq, Eq, Structural, Debug)]
pub struct CapUsage {
    pub limit: u64,
    /// Percent of the cap, at most 999.
    pub pct: u32,
    pub state: CapState,
    /// Filled part of the bar, in percent.
    pub bar_pct: u32,
    /// The bar is drawn in the accent colour.
    pub bar_accent: bool,
    pub projection: Option<CapProjection>,
}

/// The traffic-limit section of a user.
#[derive(Clone, Copy, PartialEq, Eq, Structural, Debug)]
pub struct TrafficLimit {
    pub used: u64,
    /// Effective alert threshold, in percent of the cap.
    pub threshold: u8,
    /// Present where a positive cap is configured.
    pub cap: Option<CapUsage>,
}

/// Usage of `used` bytes against the positive cap `limit`.
pub open spec fn cap_usage(used: int, limit: u64, threshold: u8, now: UtcTime) -> CapUsage {
    let pct = crate::numbers::percent(used, limit as int);
    CapUsage {
        limit,
        pct: pct as u32,
        state: if pct >= 100 {
            CapState::Over
        } else if pct >= threshold {
            CapState::Near
        } else {
            CapState::Under
        },
        bar_pct: (if pct > 100 {
            100
        } else {
            pct
        }) as u32,
        bar_accent: pct >= threshold,
        projection: match month_end(used, now) {
            None => None,
            Some(bytes) => {
                let p = crate::numbers::percent(bytes as int, limit as int);
                Some(CapProjection { bytes, pct: p as u32, over: p >= 100 })
            },
        },
    }
}

/// The section for what the inventory returned: usage this month, and cap and
/// threshold, each missing where the read failed.
pub open spec fn traffic_limit(
    used: Option<u64>,
    stored: Option<(Option<u64>, Option<u8>)>,
    now: UtcTime,
) -> TrafficLimit {
    let bytes = match used {
        Some(n) => n,
        None => 0,
    };
    let limit = match stored {
        Some((l, _)) => l,
        None => None,
    };
    let threshold = match stored {
        Some((_, Some(t))) => t,
        _ => DEFAULT_TRAFFIC_THRESHOLD_PCT,
    };
    TrafficLimit {
        used: bytes,
        threshold,
        cap: match limit {
            Some(l) => if l > 0 {
                Some(cap_usage(bytes as int, l, threshold, now))
            } else {
                None
            },
            None => None,
        },
    }
}

/// The traffic-limit section at `now`. Usage counts as 0 and the cap as unset
/// where the inventory could not be read.
pub fn user_traffic_limit_section_at(
    used: Option<u64>,
    stored: Option<(Option<u64>, Option<u8>)>,
    now: UtcTime,
) -> (r: TrafficLimit)
    ensures
        r == traffic_limit(used, stored, now),
{
    let bytes: u64 = match used {
        Some(n) => n,
        None => 0,
    };
    let (limit, chosen): (Option<u64>, Option<u8>) = match stored {
        Some(p) => p,
        None => (None, None),
    };
    let threshold: u8 = match chosen {
        Some(t) => t,
        None => DEFAULT_TRAFFIC_THRESHOLD_PCT,
    };
    let cap = match limit {
        Some(l) => {
            if l > 0 {
                let pct: u32 = percent_of(bytes, l);
                let projection = match project_month_end_at(bytes, now) {
                    None => None,
                    Some(p) => {
                        let share: u32 = percent_of(p, l);
                        Some(CapProjection { bytes: p, pct: share, over: share >= 100 })
                    },
                };
                Some(
                    CapUsage {
                        limit: l,
                        pct,
                        state: if pct >= 100 {
                            CapState::Over
                        } else if pct >= threshold as u32 {
                            CapState::Near
                        } else {
                            CapState::Under
                        },
                        bar_pct: if pct > 100 {
                            100
                        } else {
                            pct
                        },
                        bar_accent: pct >= threshold as u32,
                        projection,
                    },
                )
            } else {
                None
            }
        },
        None => None,
    };
    TrafficLimit { used: bytes, threshold, cap }
}

/// The traffic-limit section at the current instant.
pub fn user_traffic_limit_section(
    used: Option<u64>,
    stored: Option<(Option<u64>, Option<u8>)>,
) -> (r: TrafficLimit)
    ensures
        exists|now: UtcTime|
            0 <= now.seconds() && r == #[trigger] traffic_limit(used, stored, now),
{
    let now = utc_now();
    user_traffic_limit_section_at(used, stored, now)
}

/// A reported percentage is at most 999 and the bar is never longer than
/// full; a user over the cap has used at least all of it.
pub proof fn cap_usage_bounds(used: int, limit: u64, threshold: u8, now: UtcTime)
    requires
        0 <= used <= u64::MAX,
        limit > 0,
    ensures
        cap_usage(used, limit, threshold, now).pct <= 999,
        cap_usage(used, limit, threshold, now).bar_pct <= 100,
        cap_usage(used, limit, threshold, now).state is Over <==> used >= limit,
{
    let q = used * 100 / (limit as int);
    assert(q >= 100 <==> used >= limit) by (nonlinear_arith)
        requires
            used >= 0,
            limit > 0,
            q == used * 100 / (limit as int),
    ;
    assert(q >= 0) by (nonlinear_arith)
        requires
            used >= 0,
            limit > 0,
            q == used * 100 / (limit as int),
    ;
}

/// Bytes uploaded over all rows.
pub open spec fn up_sum(rows: Seq<VpnStatsRow>) -> int
    decreases rows.len(),
{
    if rows.len() == 0 {
        0
    } else {
        up_sum(rows.drop_last()) + rows.last().upload_bytes
    }
}

/// Bytes downloaded over all rows.
pub open spec fn down_sum(rows: Seq<VpnStatsRow>) -> int
    decreases rows.len(),
{
    if rows.len() == 0 {
        0
    } else {
        down_sum(rows.drop_last()) + rows.last().download_bytes
    }
}

/// Most simultaneous connections of any row.
pub open spec fn peak(rows: Seq<VpnStatsRow>) -> u32
    decreases rows.len(),
{
    if rows.len() == 0 {
        0
    } else if rows.last().active_connections > peak(rows.drop_last()) {
        rows.last().active_connections
    } else {
        peak(rows.drop_last())
    }
}

/// The rows of server `id`, in order.
pub open spec fn rows_of_server(rows: Seq<VpnStatsRow>, id: Seq<char>) -> Seq<VpnStatsRow> {
    rows.filter(|r: VpnStatsRow| r.server_id@ == id)
}

/// The server ids of the rows, in order.
pub open spec fn server_ids(rows: Seq<VpnStatsRow>) -> Seq<Seq<char>> {
    rows.map_values(|r: VpnStatsRow| r.server_id@)
}

/// A user's traffic on one server.
pub struct ServerTraffic {
    pub server_id: String,
    pub up: u64,
    pub down: u64,
    pub total: u64,
    pub peak: u32,
}

/// `t` sums up the rows of server `id`.
pub open spec fn server_traffic(t: ServerTraffic, rows: Seq<VpnStatsRow>, id: Seq<char>) -> bool {
    let own = rows_of_server(rows, id);
    &&& t.server_id@ == id
    &&& t.up == crate::numbers::clipped(up_sum(own))
    &&& t.down == crate::numbers::clipped(down_sum(own))
    &&& t.total == crate::numbers::clipped(t.up + t.down)
    &&& t.peak == peak(own)
}

/// `v` has one entry per server of the rows, by ascending server id.
pub open spec fn per_server_of(v: Seq<ServerTraffic>, rows: Seq<VpnStatsRow>) -> bool {
    &&& crate::lists::sorted_set(
        v.map_values(|t: ServerTraffic| t.server_id@),
        server_ids(rows),
    )
    &&& forall|i: int|
        0 <= i < v.len() ==> server_traffic(#[trigger] v[i], rows, v[i].server_id@)
}

/// Sums of bytes are never negative.
pub proof fn row_sums_are_counts(rows: Seq<VpnStatsRow>)
    ensures
        up_sum(rows) >= 0,
        down_sum(rows) >= 0,
    decreases rows.len(),
{
    if rows.len() > 0 {
        row_sums_are_counts(rows.drop_last());
    }
}

/// Bytes uploaded and downloaded over all rows, each clipped to 64 bits.
pub fn totals(rows: &Vec<VpnStatsRow>) -> (r: (u64, u64))
    ensures
        r.0 == crate::numbers::clipped(up_sum(rows@)),
        r.1 == crate::numbers::clipped(down_sum(rows@)),
{
    let mut up: u64 = 0;
    let mut down: u64 = 0;
    let mut k: usize = 0;
    while k < rows.len()
        invariant
            k <= rows.len(),
            up == crate::numbers::clipped(up_sum(rows@.take(k as int))),
            down == crate::numbers::clipped(down_sum(rows@.take(k as int))),
        decreases rows.len() - k,
    {
        assert(rows@.take(k + 1).drop_last() =~= rows@.take(k as int));
        proof {
            row_sums_are_counts(rows@.take(k as int));
        }
        up = up.saturating_add(rows[k].upload_bytes);
        down = down.saturating_add(rows[k].download_bytes);
        k = k + 1;
    }
    assert(rows@.take(k as int) =~= rows@);
    (up, down)
}

fn one_server(rows: &Vec<VpnStatsRow>, id: &String) -> (r: ServerTraffic)
    ensures
        server_traffic(r, rows@, id@),
{
    let mut up: u64 = 0;
    let mut down: u64 = 0;
    let mut most: u32 = 0;
    let mut k: usize = 0;
    let ghost of_id = |r: VpnStatsRow| r.server_id@ == id@;
    proof {
        assert(rows@.take(0) =~= Seq::<VpnStatsRow>::empty());
        reveal(Seq::filter);
    }
    while k < rows.len()
        invariant
            k <= rows.len(),
            of_id == (|r: VpnStatsRow| r.server_id@ == id@),
            up == crate::numbers::clipped(up_sum(rows@.take(k as int).filter(of_id))),
            down == crate::numbers::clipped(down_sum(rows@.take(k as int).filter(of_id))),
            most == peak(rows@.take(k as int).filter(of_id)),
        decreases rows.len() - k,
    {
        let ghost before = rows@.take(k as int);
        let ghost next = rows@.take(k + 1);
        proof {
            assert(next.drop_last() =~= before);
            reveal(Seq::filter);
            row_sums_are_counts(before.filter(of_id));
        }
        if same(rows[k].server_id.as_str(), id.as_str()) {
            proof {
                assert(next.filter(of_id) =~= before.filter(of_id).push(rows@[k as int]));
                assert(before.filter(of_id).push(rows@[k as int]).drop_last() =~= before.filter(of_id));
            }
            up = up.saturating_add(rows[k].upload_bytes);
            down = down.saturating_add(rows[k].download_bytes);
            if rows[k].active_connections > most {
                most = rows[k].active_connections;
            }
        } else {
            assert(next.filter(of_id) =~= before.filter(of_id));
        }
        k = k + 1;
    }
    assert(rows@.take(k as int) =~= rows@);
    ServerTraffic {
        server_id: id.clone(),
        up,
        down,
        total: up.saturating_add(down),
        peak: most,
    }
}

/// One entry per server of the rows, by ascending server id.
pub fn traffic_per_server(rows: &Vec<VpnStatsRow>) -> (r: Vec<ServerTraffic>)
    ensures
        per_server_of(r@, rows@),
{
    let mut ids: Vec<String> = Vec::new();
    let mut k: usize = 0;
    while k < rows.len()
        invariant
            k <= rows.len(),
            crate::text::texts(ids@) == server_ids(rows@).take(k as int),
        decreases rows.len() - k,
    {
        let ghost before = ids@;
        ids.push(rows[k].server_id.clone());
        assert(crate::text::texts(ids@) =~= crate::text::texts(before).push(
            server_ids(rows@)[k as int],
        ));
        assert(server_ids(rows@).take(k + 1) =~= server_ids(rows@).take(k as int).push(
            server_ids(rows@)[k as int],
        ));
        k = k + 1;
    }
    assert(server_ids(rows@).take(k as int) =~= server_ids(rows@));
    let keys = distinct_sorted(&ids);
    let mut r: Vec<ServerTraffic> = Vec::new();
    let mut i: usize = 0;
    while i < keys.len()
        invariant
            i <= keys.len(),
            r.len() == i,
            forall|j: int|
                0 <= j < i ==> server_traffic(#[trigger] r@[j], rows@, keys@[j]@),
        decreases keys.len() - i,
    {
        r.push(one_server(rows, &keys[i]));
        i = i + 1;
    }
    assert(r@.map_values(|t: ServerTraffic| t.server_id@) =~= crate::text::texts(keys@)) by {
        assert forall|j: int| 0 <= j < r.len() implies (#[trigger] r@[j]).server_id@ == keys@[j]@ by {
            assert(server_traffic(r@[j], rows@, keys@[j]@));
        }
    }
    r
}

/// Totals and charts of a user's live traffic.
pub struct LiveTraffic {
    pub up: u64,
    pub down: u64,
    pub peak: u32,
    pub window_label: &'static str,
    pub picker: Vec<WindowTab>,
    /// Bytes per cell for the compact trend.
    pub trend: Vec<u64>,
    /// Whether any cell of the trend has traffic; only then it is drawn.
    pub show_trend: bool,
    pub trend_max: u64,
    pub per_server: Vec<ServerTraffic>,
    pub chart: Option<TrafficChart>,
    /// Snapshots behind the numbers.
    pub snapshots: usize,
    /// Ending of the caption that counts the snapshots.
    pub snapshots_noun: &'static str,
}

/// The live traffic section of a user.
pub enum LiveVpnStats {
    /// The snapshots could not be read.
    Unavailable,
    /// No snapshot covers the user yet.
    Empty,
    Shown(LiveTraffic),
}

/// Path of a user's traffic page; `user` is path-encoded.
pub open spec fn traffic_url(user: Seq<char>) -> Seq<char> {
    "/admin/users/"@ + user + "/traffic"@
}

/// `v` shows the rows of a user in the window that `slug` picks.
pub open spec fn live_traffic(
    v: LiveTraffic,
    rows: Seq<VpnStatsRow>,
    slug: Option<Seq<char>>,
    user: Seq<char>,
    lang: Locale,
    offset: i32,
    now: UtcTime,
) -> bool {
    let w = picked_window(slug);
    &&& v.up == crate::numbers::clipped(up_sum(rows))
    &&& v.down == crate::numbers::clipped(down_sum(rows))
    &&& v.peak == peak(rows)
    &&& v.window_label == crate::locale::in_language(lang, w.label_en, w.label_ru)
    &&& picker_of(v.picker@, traffic_url(user), w.slug@, lang)
    &&& v.trend@ == trend_cells(rows, now, w)
    &&& v.trend_max == crate::numbers::greatest(v.trend@)
    &&& v.show_trend == crate::numbers::any_positive(v.trend@)
    &&& per_server_of(v.per_server@, rows)
    &&& chart_of(v.chart, rows, w, lang, offset, now)
    &&& v.snapshots == rows.len()
    &&& v.snapshots_noun == (if rows.len() == 1 {
        crate::locale::in_language(lang, " snapshot", " снэпшота")
    } else {
        crate::locale::in_language(lang, " snapshots", " снэпшотов")
    })
}

/// `v` is the section for what the inventory returned, none where the read
/// failed.
pub open spec fn live_vpn_stats(
    v: LiveVpnStats,
    rows: Option<Vec<VpnStatsRow>>,
    slug: Option<Seq<char>>,
    user: Seq<char>,
    lang: Locale,
    offset: i32,
    now: UtcTime,
) -> bool {
    match rows {
        None => v is Unavailable,
        Some(rows) => if rows@.len() == 0 {
            v is Empty
        } else {
            v matches LiveVpnStats::Shown(t) && live_traffic(
                t,
                rows@,
                slug,
                user,
                lang,
                offset,
                now,
            )
        },
    }
}

/// Hours of history that a window covers.
pub fn window_hours(slug: Option<&str>) -> (r: u32)
    ensures
        r == picked_window(crate::text::opt_text(slug)).cells * picked_window(crate::text::opt_text(slug)).bucket_hours,
{
    let w = pick_vpn_sparkline_window(slug);
    w.cells * w.bucket_hours
}

/// The live traffic section at `now`, for a path-encoded user id, axis labels
/// in the zone `offset` seconds east of UTC. Trend and chart are taken at the
/// same instant.
pub fn live_vpn_stats_section_at(
    rows: &Option<Vec<VpnStatsRow>>,
    slug: Option<&str>,
    user: &str,
    lang: Locale,
    offset: i32,
    now: UtcTime,
) -> (r: LiveVpnStats)
    requires
        -86_400 < offset < 86_400,
    ensures
        live_vpn_stats(r, *rows, crate::text::opt_text(slug), user@, lang, offset, now),
{
    let rows = match rows {
        None => {
            return LiveVpnStats::Unavailable;
        },
        Some(rows) => rows,
    };
    if rows.len() == 0 {
        return LiveVpnStats::Empty;
    }
    let w = pick_vpn_sparkline_window(slug);
    let (up, down): (u64, u64) = totals(rows);
    let mut most: u32 = 0;
    let mut k: usize = 0;
    while k < rows.len()
        invariant
            k <= rows.len(),
            most == peak(rows@.take(k as int)),
        decreases rows.len() - k,
    {
        assert(rows@.take(k + 1).drop_last() =~= rows@.take(k as int));
        if rows[k].active_connections > most {
            most = rows[k].active_connections;
        }
        k = k + 1;
    }
    assert(rows@.take(k as int) =~= rows@);
    let url = cat3("/admin/users/", user, "/traffic");
    let picker = window_picker_section(url.as_str(), w.slug, lang);
    let trend = vpn_traffic_trend_series_at(rows, w, now);
    let trend_max: u64 = greatest_of(&trend);
    proof {
        if trend_max > 0 {
            crate::numbers::greatest_occurs(trend@);
            assert(trend@[trend@.index_of(trend_max)] > 0);
        } else {
            assert forall|i: int| 0 <= i < trend@.len() implies #[trigger] trend@[i] == 0 by {
                crate::numbers::greatest_bounds(trend@, i);
            }
        }
    }
    assert((trend_max > 0) == crate::numbers::any_positive(trend@));
    let per_server = traffic_per_server(rows);
    assert(w.cells * w.bucket_hours * 3600 <= 8_000_000_000_000) by (nonlinear_arith)
        requires
            w.cells <= 30,
            w.bucket_hours <= 720,
    ;
    let chart = vpn_traffic_chart_at(rows, w, lang, offset, now);
    LiveVpnStats::Shown(
        LiveTraffic {
            up,
            down,
            peak: most,
            window_label: tr(lang, w.label_en, w.label_ru),
            picker,
            trend,
            show_trend: trend_max > 0,
            trend_max,
            per_server,
            chart,
            snapshots: rows.len(),
            snapshots_noun: if rows.len() == 1 {
                tr(lang, " snapshot", " снэпшота")
            } else {
                tr(lang, " snapshots", " снэпшотов")
            },
        },
    )
}

/// The live traffic section at the current instant.
pub fn live_vpn_stats_section(
    rows: &Option<Vec<VpnStatsRow>>,
    slug: Option<&str>,
    user: &str,
    lang: Locale,
    offset: i32,
) -> (r: LiveVpnStats)
    requires
        -86_400 < offset < 86_400,
    ensures
        exists|now: UtcTime|
            0 <= now.seconds() && #[trigger] live_vpn_stats(
                r,
                *rows,
                crate::text::opt_text(slug),
                user@,
                lang,
                offset,
                now,
            ),
{
    let now = utc_now();
    live_vpn_stats_section_at(rows, slug, user, lang, offset, now)
}

} // verus!
