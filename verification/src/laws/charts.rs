//! Laws of windows, charts and series.
use crate::locale::Locale;
use crate::time::UtcTime;
use crate::traffic::{TrafficChart, VpnSparklineWindow, VpnStatsRow, WindowTab};
use vstd::prelude::*;

verus! {

/// Nanoseconds in one bucket of the window.
pub open spec fn bucket_nanos(w: VpnSparklineWindow) -> int {
    w.bucket_hours * 3600 * 1_000_000_000
}

/// `t` fits in 64 bits of nanoseconds.
pub open spec fn bucketable(t: UtcTime) -> bool {
    i64::MIN <= t.stamp() <= i64::MAX
}

/// The instant lies in the bucket that starts at second `start`.
pub open spec fn in_bucket(t: UtcTime, start: int, w: VpnSparklineWindow) -> bool {
    start * 1_000_000_000 <= t.stamp() < start * 1_000_000_000 + bucket_nanos(w)
}

proof fn lemma_same_bucket(stamp: int, span: int, q: int)
    requires
        span > 0,
    ensures
        stamp / span == q <==> q * span <= stamp < q * span + span,
{
    vstd::arithmetic::div_mod::lemma_fundamental_div_mod(stamp, span);
    vstd::arithmetic::div_mod::lemma_mod_bound(stamp, span);
    let p = stamp / span;
    assert(p * span == span * p) by (nonlinear_arith);
    if p < q {
        assert(p * span + span <= q * span) by (nonlinear_arith)
            requires
                p + 1 <= q,
                span > 0,
        ;
    }
    if p > q {
        assert(q * span + span <= p * span) by (nonlinear_arith)
            requires
                q + 1 <= p,
                span > 0,
        ;
    }
}

proof fn lemma_starts(now: UtcTime, w: VpnSparklineWindow, i: int)
    requires
        w.bucket_hours > 0,
        bucketable(now),
        bucket_nanos(w) <= i64::MAX,
    ensures
        crate::traffic::cell_start(now, w, i) == (now.stamp() / bucket_nanos(w) - (w.cells - 1 - i))
            * (w.bucket_hours * 3600),
        crate::traffic::cell_start(now, w, i) * 1_000_000_000 == (now.stamp() / bucket_nanos(w) - (
        w.cells - 1 - i)) * bucket_nanos(w),
{
    let secs = w.bucket_hours * 3600;
    let span = bucket_nanos(w);
    let q = now.stamp() / span;
    let back = w.cells - 1 - i;
    crate::laws::calendar::rounding_down(now.stamp(), span);
    assert(q * span == (q * secs) * 1_000_000_000) by (nonlinear_arith)
        requires
            span == secs * 1_000_000_000,
    ;
    assert(q * secs - back * secs == (q - back) * secs) by (nonlinear_arith);
    assert((q - back) * span == ((q - back) * secs) * 1_000_000_000) by (nonlinear_arith)
        requires
            span == secs * 1_000_000_000,
    ;
}

/// A row counts in cell `i` of the series and of the chart exactly when the
/// cell starts at or before the row's instant, and less than one bucket before
/// it. So what happened just now counts in the newest cell.
pub proof fn row_counts_in_its_interval(now: UtcTime, ts: UtcTime, w: VpnSparklineWindow, i: int)
    requires
        w.bucket_hours > 0,
        bucket_nanos(w) <= i64::MAX,
        bucketable(now),
        bucketable(ts),
    ensures
        crate::traffic::cell_of(now, ts, w) == Some(i) <==> 0 <= i < w.cells && in_bucket(
            ts,
            crate::traffic::cell_start(now, w, i),
            w,
        ),
        w.cells > 0 ==> crate::traffic::cell_of(now, now, w) == Some(w.cells - 1),
{
    let span = bucket_nanos(w);
    let qa = now.stamp() / span;
    let qb = ts.stamp() / span;
    crate::laws::calendar::rounding_down(now.stamp(), span);
    crate::laws::calendar::rounding_down(ts.stamp(), span);
    assert(qa * span - qb * span == (qa - qb) * span) by (nonlinear_arith);
    vstd::arithmetic::div_mod::lemma_div_multiples_vanish(qa - qb, span);
    assert((qa - qb) * span == span * (qa - qb)) by (nonlinear_arith);
    vstd::arithmetic::div_mod::lemma_div_multiples_vanish(0, span);
    assert((qa * span - qa * span) / span == 0);
    lemma_starts(now, w, i);
    lemma_same_bucket(ts.stamp(), span, qa - (w.cells - 1 - i));
}

/// One more row raises, in each direction, the bar whose interval holds the
/// row's instant by the bytes of the row, and leaves all other bars and the
/// axis as they were.
pub proof fn row_raises_its_bar(
    c: TrafficChart,
    d: TrafficChart,
    rows: Seq<VpnStatsRow>,
    row: VpnStatsRow,
    w: VpnSparklineWindow,
    lang: Locale,
    offset: i32,
    now: UtcTime,
    i: int,
)
    requires
        crate::traffic::chart_of(Some(c), rows, w, lang, offset, now),
        crate::traffic::chart_of(Some(d), rows.push(row), w, lang, offset, now),
        bucketable(row.ts),
        0 <= i < w.cells,
    ensures
        d.starts@ == c.starts@,
        in_bucket(row.ts, c.starts@[i] as int, w) ==> {
            &&& d.up@[i] == crate::numbers::clipped(c.up@[i] + row.upload_bytes)
            &&& d.down@[i] == crate::numbers::clipped(c.down@[i] + row.download_bytes)
            &&& d.totals@[i] == crate::numbers::clipped(
                c.totals@[i] + row.upload_bytes + row.download_bytes,
            )
        },
        !in_bucket(row.ts, c.starts@[i] as int, w) ==> d.up@[i] == c.up@[i] && d.down@[i]
            == c.down@[i] && d.totals@[i] == c.totals@[i],
        c.up@.len() == w.cells,
        c.down@.len() == w.cells,
        c.totals@.len() == w.cells,
{
    let more = rows.push(row);
    assert(more.drop_last() =~= rows);
    assert(more.last() == row);
    row_counts_in_its_interval(now, row.ts, w, i);
    assert forall|k: int| 0 <= k < w.cells implies d.starts@[k] == #[trigger] c.starts@[k] by {
        assert(d.starts@[k] == crate::traffic::cell_start(now, w, k));
    }
    lemma_sums(rows, now, w, i);
}

proof fn lemma_sums(rows: Seq<VpnStatsRow>, now: UtcTime, w: VpnSparklineWindow, i: int)
    ensures
        crate::traffic::up_in(rows, now, w, i) >= 0,
        crate::traffic::down_in(rows, now, w, i) >= 0,
    decreases rows.len(),
{
    if rows.len() > 0 {
        lemma_sums(rows.drop_last(), now, w, i);
    }
}

/// Without rows every bar is empty and nothing is counted.
pub proof fn chart_without_rows(
    c: TrafficChart,
    w: VpnSparklineWindow,
    lang: Locale,
    offset: i32,
    now: UtcTime,
    i: int,
)
    requires
        crate::traffic::chart_of(Some(c), Seq::empty(), w, lang, offset, now),
        0 <= i < w.cells,
    ensures
        c.up@[i] == 0,
        c.down@[i] == 0,
        c.totals@[i] == 0,
        c.raw_max == 0,
{
    let none = Seq::<VpnStatsRow>::empty();
    assert forall|k: int| 0 <= k < w.cells implies #[trigger] c.totals@[k] == 0 by {
        assert(crate::traffic::up_in(none, now, w, k) == 0);
    }
    assert(crate::traffic::up_in(none, now, w, i) == 0);
    assert(crate::traffic::down_in(none, now, w, i) == 0);
    crate::numbers::greatest_occurs(c.totals@);
}

/// The bars follow one another without gap or overlap, each starts at a whole
/// multiple of its length, and the newest holds the present. There is no chart
/// exactly where the present or the bucket does not fit in 64 bits of
/// nanoseconds.
pub proof fn bars_tile_the_window(
    c: TrafficChart,
    rows: Seq<VpnStatsRow>,
    w: VpnSparklineWindow,
    lang: Locale,
    offset: i32,
    now: UtcTime,
    i: int,
    j: int,
)
    requires
        crate::traffic::chart_of(Some(c), rows, w, lang, offset, now),
        0 <= i <= j < w.cells,
    ensures
        c.starts@.len() == w.cells,
        c.starts@[j] - c.starts@[i] == (j - i) * (w.bucket_hours * 3600),
        c.starts@[i] as int % (w.bucket_hours * 3600) == 0,
        in_bucket(now, c.starts@[w.cells - 1] as int, w),
        !crate::traffic::chart_of(None, rows, w, lang, offset, now),
{
    crate::laws::calendar::rounding_down(now.stamp(), bucket_nanos(w));
    lemma_starts(now, w, i);
    lemma_starts(now, w, j);
    lemma_starts(now, w, w.cells - 1);
    let secs = w.bucket_hours * 3600;
    let q = now.stamp() / bucket_nanos(w);
    assert(c.starts@[i] == crate::traffic::cell_start(now, w, i));
    assert(c.starts@[j] == crate::traffic::cell_start(now, w, j));
    assert(c.starts@[w.cells - 1] == crate::traffic::cell_start(now, w, w.cells - 1));
    assert((q - (w.cells - 1 - j)) * secs - (q - (w.cells - 1 - i)) * secs == (j - i) * secs)
        by (nonlinear_arith);
    vstd::arithmetic::div_mod::lemma_mod_multiples_basic(q - (w.cells - 1 - i), secs);
    lemma_same_bucket(now.stamp(), bucket_nanos(w), q);
}

/// There is a chart wherever the present and the bucket fit in 64 bits of
/// nanoseconds, and only there.
pub proof fn chart_where_time_fits(
    rows: Seq<VpnStatsRow>,
    w: VpnSparklineWindow,
    lang: Locale,
    offset: i32,
    now: UtcTime,
)
    ensures
        crate::traffic::chart_of(None, rows, w, lang, offset, now) <==> !(bucketable(now) && 0
            < bucket_nanos(w) <= i64::MAX),
{
}

/// A value of the axis of a chart: 1, 2, 5, 10, 20 or 50 times 1024 bytes, its
/// square, its cube or its fourth power.
pub open spec fn round_bytes(v: int) -> bool {
    exists|m: int, unit: int|
        #![trigger round_product(m, unit)]
        round_product(m, unit) && v == m * unit
}

/// A round number and a power of 1024.
pub open spec fn round_product(m: int, unit: int) -> bool {
    (m == 1 || m == 2 || m == 5 || m == 10 || m == 20 || m == 50) && (unit == 1024 || unit == 1024
        * 1024 || unit == 1024 * 1024 * 1024 || unit == 1024 * 1024 * 1024 * 1024)
}

/// The axis is as high as the tallest bar or higher, ends at a round value, and
/// no lower round value would do; only above 50 TiB it ends at the tallest bar.
/// It is marked at each quarter, in whole bytes.
pub proof fn axis_just_covers_the_bars(
    c: TrafficChart,
    rows: Seq<VpnStatsRow>,
    w: VpnSparklineWindow,
    lang: Locale,
    offset: i32,
    now: UtcTime,
    i: int,
    m: int,
    unit: int,
    t: int,
)
    requires
        crate::traffic::chart_of(Some(c), rows, w, lang, offset, now),
        0 <= i < w.cells,
        round_product(m, unit),
        0 <= t < 5,
    ensures
        c.totals@[i] <= c.raw_max,
        c.totals@.contains(c.raw_max),
        c.raw_max <= c.y_max,
        c.raw_max <= 50 * 1024 * 1024 * 1024 * 1024 ==> round_bytes(c.y_max as int),
        c.raw_max > 50 * 1024 * 1024 * 1024 * 1024 ==> c.y_max == c.raw_max,
        m * unit >= c.raw_max ==> c.y_max <= m * unit,
        c.total == crate::numbers::sum_of(c.totals@),
        c.y_values@.len() == 5,
        4 * c.y_values@[t] <= c.y_max * t < 4 * c.y_values@[t] + 4,
{
    crate::numbers::greatest_bounds(c.totals@, i);
    crate::numbers::greatest_occurs(c.totals@);
    let v = m * unit;
    assert(crate::traffic::is_nice(v)) by {
        assert(crate::traffic::round_multiple(v, unit)) by {
            assert(m * unit == v);
        }
    }
    if c.raw_max <= 50 * 1024 * 1024 * 1024 * 1024 {
        let y = c.y_max as int;
        assert(crate::traffic::is_nice(y));
        let unit = if crate::traffic::round_multiple(y, 1024) {
            1024int
        } else if crate::traffic::round_multiple(y, 1_048_576) {
            1_048_576
        } else if crate::traffic::round_multiple(y, 1_073_741_824) {
            1_073_741_824
        } else {
            1_099_511_627_776
        };
        assert(crate::traffic::round_multiple(y, unit));
        let m = if y == unit {
            1int
        } else if y == 2 * unit {
            2
        } else if y == 5 * unit {
            5
        } else if y == 10 * unit {
            10
        } else if y == 20 * unit {
            20
        } else {
            50
        };
        assert(round_product(m, unit));
        assert(y == m * unit);
    }
    assert(c.y_values@[t] == c.y_max * t / 4);
}

/// The label of a bar gives the local time at which the bar starts: the time of
/// day where bars are hours, month and day where they are days, month and year
/// where they are longer.
pub proof fn labels_give_the_start(
    c: TrafficChart,
    rows: Seq<VpnStatsRow>,
    w: VpnSparklineWindow,
    lang: Locale,
    offset: i32,
    now: UtcTime,
    i: int,
    date: (int, int, int),
    hour: int,
    minute: int,
)
    requires
        crate::traffic::chart_of(Some(c), rows, w, lang, offset, now),
        0 <= i < w.cells,
        0 <= hour < 24,
        0 <= minute < 60,
        0 <= c.starts@[i] + offset - 86_400 * ((c.starts@[i] + offset) / 86_400) - 3600 * hour - 60
            * minute < 60,
        crate::time::date_on((c.starts@[i] + offset) / 86_400, date),
    ensures
        c.labels@.len() == w.cells,
        w.bucket_hours == 1 ==> c.labels@[i]@ == crate::text::dec2_text(hour as nat) + ":"@
            + crate::text::dec2_text(minute as nat),
        w.bucket_hours == 24 ==> c.labels@[i]@ == crate::time::month_name(date.1) + " "@
            + crate::text::dec2_text(date.2 as nat),
        w.bucket_hours != 1 && w.bucket_hours != 24 ==> c.labels@[i]@ == crate::time::month_name(
            date.1,
        ) + " "@ + crate::time::year_text(date.0),
{
    assert(c.starts@[i] == crate::traffic::cell_start(now, w, i));
    assert(c.labels@[i]@ == crate::time::calendar_text(
        c.starts@[i] as int,
        offset as int,
        crate::traffic::axis_pattern(w.bucket_hours)@,
    ));
    crate::laws::calendar::printed_time_of_day(c.starts@[i] as int, offset as int, hour, minute);
    crate::laws::calendar::printed_dates(c.starts@[i] as int, offset as int, date);
}

/// From the first bar on, the axis shows a label every six hours of the day
/// window, every day of the week window, every five days of the month window,
/// and every six months of the whole record.
pub proof fn labels_at_even_steps(
    c: TrafficChart,
    rows: Seq<VpnStatsRow>,
    slug: Option<Seq<char>>,
    lang: Locale,
    offset: i32,
    now: UtcTime,
    i: int,
)
    requires
        crate::traffic::chart_of(
            Some(c),
            rows,
            crate::traffic::picked_window(slug),
            lang,
            offset,
            now,
        ),
        0 <= i < crate::traffic::picked_window(slug).cells,
    ensures
        c.labelled@.len() == crate::traffic::picked_window(slug).cells,
        slug == Some("7d"@) ==> c.labelled@[i],
        slug == Some("30d"@) ==> (c.labelled@[i] <==> (c.starts@[i] - c.starts@[0]) % 432_000
            == 0),
        slug == Some("all"@) ==> (c.labelled@[i] <==> (c.starts@[i] - c.starts@[0]) % 15_552_000
            == 0),
        slug != Some("7d"@) && slug != Some("30d"@) && slug != Some("all"@) ==> (c.labelled@[i]
            <==> (c.starts@[i] - c.starts@[0]) % 21_600 == 0),
{
    let w = crate::traffic::picked_window(slug);
    reveal_strlit("7d");
    reveal_strlit("30d");
    reveal_strlit("all");
    assert("7d"@.len() != "30d"@.len());
    assert("30d"@[0] != "all"@[0]);
    bars_tile_the_window(c, rows, w, lang, offset, now, 0, i);
    assert(c.labelled@[i] == (i % crate::traffic::label_step(w) == 0));
    let apart = c.starts@[i] - c.starts@[0];
    if w.bucket_hours == 24 {
        assert(apart == i * 86_400);
        assert(apart % 432_000 == 0 <==> i % 5 == 0);
    } else if w.bucket_hours == 720 {
        assert(apart == i * 2_592_000);
        assert(apart % 15_552_000 == 0 <==> i % 6 == 0);
    } else {
        assert(apart == i * 3600);
        assert(apart % 21_600 == 0 <==> i % 6 == 0);
    }
}

/// A slug picks its own stretch of time: a week or thirty days in days, the
/// whole record in thirty-day pieces, and a day in hours for anything else.
pub proof fn windows_by_slug(slug: Option<Seq<char>>)
    ensures
        ({
            let w = crate::traffic::picked_window(slug);
            &&& slug == Some("7d"@) ==> w.cells == 7 && w.bucket_hours == 24 && w.per_bucket_en
                == "per day" && w.label_en == "7 days" && w.per_bucket_ru == "в сутки"
                && w.label_ru == "7 дней"
            &&& slug == Some("30d"@) ==> w.cells == 30 && w.bucket_hours == 24 && w.per_bucket_en
                == "per day" && w.label_en == "30 days" && w.per_bucket_ru == "в сутки"
                && w.label_ru == "30 дней"
            &&& slug == Some("all"@) ==> w.cells == 30 && w.bucket_hours == 30 * 24
                && w.per_bucket_en == "per month" && w.label_en == "all" && w.per_bucket_ru
                == "в месяц" && w.label_ru == "всё"
            &&& slug != Some("7d"@) && slug != Some("30d"@) && slug != Some("all"@) ==> w.cells
                == 24 && w.bucket_hours == 1 && w.per_bucket_en == "per hour" && w.label_en
                == "24h" && w.per_bucket_ru == "в час" && w.label_ru == "24ч" && w.slug@
                == "24h"@
            &&& slug == Some("7d"@) || slug == Some("30d"@) || slug == Some("all"@) ==> slug
                == Some(w.slug@)
        }),
{
    reveal_strlit("7d");
    reveal_strlit("30d");
    reveal_strlit("all");
    assert("7d"@.len() != "30d"@.len());
    assert("30d"@[0] != "all"@[0]);
}

/// Every tab leads back to its page with the slug of its own window, and is
/// named in the language of the page.
pub proof fn tabs_lead_to_their_windows(
    tabs: Seq<WindowTab>,
    base_url: Seq<char>,
    active_slug: Seq<char>,
    lang: Locale,
    i: int,
)
    requires
        crate::traffic::picker_of(tabs, base_url, active_slug, lang),
        0 <= i < tabs.len(),
    ensures
        tabs.len() == 4,
        tabs[0].slug@ == "24h"@,
        tabs[1].slug@ == "7d"@,
        tabs[2].slug@ == "30d"@,
        tabs[3].slug@ == "all"@,
        tabs[i].href@ == base_url + "?vpn_window="@ + tabs[i].slug@ + "#timeframe"@,
        tabs[i].active <==> tabs[i].slug@ == active_slug,
        lang is En ==> tabs[i].label == crate::traffic::picked_window(Some(tabs[i].slug@)).label_en,
        lang is Ru ==> tabs[i].label == crate::traffic::picked_window(Some(tabs[i].slug@)).label_ru,
{
    crate::traffic::windows_picked_by_slug("24h"@);
    let ws = crate::traffic::windows();
    assert(ws[0] == crate::traffic::day_window());
    assert(ws[1] == crate::traffic::week_window());
    assert(ws[2] == crate::traffic::month_window());
    assert(ws[3] == crate::traffic::all_window());
    assert(tabs[0].slug == ws[0].slug);
    assert(tabs[1].slug == ws[1].slug);
    assert(tabs[2].slug == ws[2].slug);
    assert(tabs[3].slug == ws[3].slug);
    assert(tabs[i].slug == ws[i].slug);
    assert(crate::traffic::picked_window(Some(ws[i].slug@)) == ws[i]);
}

/// Where the present does not fit the grid the series is empty of traffic;
/// elsewhere each of its cells is the height of the bar.
pub proof fn series_follows_the_bars(
    rows: Seq<VpnStatsRow>,
    w: VpnSparklineWindow,
    now: UtcTime,
    i: int,
    c: TrafficChart,
    lang: Locale,
    offset: i32,
)
    requires
        0 <= i < w.cells,
    ensures
        crate::traffic::trend_cells(rows, now, w).len() == w.cells,
        !bucketable(now) || bucket_nanos(w) > i64::MAX ==> crate::traffic::trend_cells(
            rows,
            now,
            w,
        )[i] == 0,
        crate::traffic::chart_of(Some(c), rows, w, lang, offset, now)
            ==> crate::traffic::trend_cells(rows, now, w)[i] == crate::numbers::clipped(
            c.up@[i] + c.down@[i],
        ),
{
    if !bucketable(now) || bucket_nanos(w) > i64::MAX {
        lemma_nothing_counted(rows, now, w, i);
    }
    lemma_sums(rows, now, w, i);
}

proof fn lemma_nothing_counted(rows: Seq<VpnStatsRow>, now: UtcTime, w: VpnSparklineWindow, i: int)
    requires
        !bucketable(now) || bucket_nanos(w) > i64::MAX,
    ensures
        crate::traffic::up_in(rows, now, w, i) == 0,
        crate::traffic::down_in(rows, now, w, i) == 0,
    decreases rows.len(),
{
    if rows.len() > 0 {
        lemma_nothing_counted(rows.drop_last(), now, w, i);
    }
}

/// A row whose instant does not fit in 64 bits of nanoseconds counts in no bar.
pub proof fn row_out_of_reach_counts_nowhere(
    c: TrafficChart,
    d: TrafficChart,
    rows: Seq<VpnStatsRow>,
    row: VpnStatsRow,
    w: VpnSparklineWindow,
    lang: Locale,
    offset: i32,
    now: UtcTime,
    i: int,
)
    requires
        crate::traffic::chart_of(Some(c), rows, w, lang, offset, now),
        crate::traffic::chart_of(Some(d), rows.push(row), w, lang, offset, now),
        !bucketable(row.ts),
        0 <= i < w.cells,
    ensures
        d.up@[i] == c.up@[i],
        d.down@[i] == c.down@[i],
        d.totals@[i] == c.totals@[i],
{
    assert(rows.push(row).drop_last() =~= rows);
}

/// Of any window, up to eight cells are all labelled and up to sixteen every
/// other one; of more, every fifth where up to 32 of them are days, and every
/// sixth otherwise. The caption of the chart says what a bar covers.
pub proof fn labels_by_number_of_cells(
    c: TrafficChart,
    rows: Seq<VpnStatsRow>,
    w: VpnSparklineWindow,
    lang: Locale,
    offset: i32,
    now: UtcTime,
    i: int,
)
    requires
        crate::traffic::chart_of(Some(c), rows, w, lang, offset, now),
        0 <= i < w.cells,
    ensures
        w.cells <= 8 ==> c.labelled@[i],
        8 < w.cells <= 16 ==> (c.labelled@[i] <==> i % 2 == 0),
        16 < w.cells <= 32 && w.bucket_hours == 24 ==> (c.labelled@[i] <==> i % 5 == 0),
        16 < w.cells && !(w.cells <= 32 && w.bucket_hours == 24) ==> (c.labelled@[i] <==> i % 6
            == 0),
        lang is En ==> c.per_bucket == w.per_bucket_en,
        lang is Ru ==> c.per_bucket == w.per_bucket_ru,
{
    assert(c.labelled@[i] == (i % crate::traffic::label_step(w) == 0));
}

} // verus!
