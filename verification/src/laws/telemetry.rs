//! Laws of probe telemetry.
use crate::locale::Locale;
use crate::telemetry::{Hero, NodeHealth, UptimeSection, UptimeStat};
use crate::time::UtcTime;
use vstd::prelude::*;

verus! {

/// The window recorded a probe.
pub open spec fn probed(stat: Option<UptimeStat>) -> bool {
    stat is Some && stat->0.total_rows > 0
}

/// The window recorded its newest probe at `at`.
pub open spec fn probed_at(stat: Option<UptimeStat>, at: UtcTime) -> bool {
    stat is Some && stat->0.last_probe_at == Some(at)
}

/// More than twenty minutes, in whole seconds, lie between the two.
pub open spec fn long_ago(at: UtcTime, now: UtcTime) -> bool {
    now.stamp() - at.stamp() >= 1201 * 1_000_000_000
}

/// The section is there exactly where some window has a probe. The poller
/// counts as stalled exactly where a newest probe is known and every one that
/// is known is more than twenty minutes old.
pub proof fn stalled_after_twenty_minutes(
    v: Option<UptimeSection>,
    day: Option<UptimeStat>,
    week: Option<UptimeStat>,
    month: Option<UptimeStat>,
    lang: Locale,
    now: UtcTime,
)
    requires
        crate::telemetry::uptime_section(v, day, week, month, lang, now),
    ensures
        v is Some <==> probed(day) || probed(week) || probed(month),
        v matches Some(s) ==> (s.stale <==> {
            &&& exists|at: UtcTime|
                (probed_at(day, at) || probed_at(week, at) || probed_at(month, at))
                    && #[trigger] long_ago(at, now)
            &&& forall|at: UtcTime|
                (probed_at(day, at) || probed_at(week, at) || probed_at(month, at))
                    ==> #[trigger] long_ago(at, now)
        }),
{
    if let Some(s) = v {
        let a = crate::telemetry::probe_in(day);
        let b = crate::telemetry::probe_in(week);
        let c = crate::telemetry::probe_in(month);
        if let Some(at) = crate::telemetry::newest_of(a, b, c) {
            assert(probed_at(day, at) || probed_at(week, at) || probed_at(month, at));
            crate::laws::calendar::seconds_between(now.stamp() - at.stamp());
            assert(s.stale <==> long_ago(at, now));
        }
    }
}

/// The last outage is told in whole minutes below an hour, whole hours below a
/// day, and whole days; one still to come counts as zero minutes ago.
pub proof fn outage_in_whole_units(
    v: UptimeSection,
    day: Option<UptimeStat>,
    week: Option<UptimeStat>,
    month: Option<UptimeStat>,
    lang: Locale,
    now: UtcTime,
    n: int,
)
    requires
        crate::telemetry::uptime_section(Some(v), day, week, month, lang, now),
        n >= 0,
    ensures
        v.last_outage matches Some(o) ==> {
            let nanos = now.stamp() - o.at.stamp();
            let minute: int = 60_000_000_000;
            let hour = 60 * minute;
            let full = 24 * hour;
            &&& n < 60 && n * minute <= nanos < (n + 1) * minute && lang is En ==> o.ago@
                == crate::text::dec_text(n as nat) + " "@ + "min ago"@
            &&& n < 60 && n * minute <= nanos < (n + 1) * minute && lang is Ru ==> o.ago@
                == crate::text::dec_text(n as nat) + " "@ + "мин назад"@
            &&& 1 <= n < 24 && n * hour <= nanos < (n + 1) * hour && lang is En ==> o.ago@
                == crate::text::dec_text(n as nat) + " "@ + "h ago"@
            &&& 1 <= n < 24 && n * hour <= nanos < (n + 1) * hour && lang is Ru ==> o.ago@
                == crate::text::dec_text(n as nat) + " "@ + "ч назад"@
            &&& 1 <= n && n * full <= nanos < (n + 1) * full && lang is En ==> o.ago@
                == crate::text::dec_text(n as nat) + " "@ + "d ago"@
            &&& 1 <= n && n * full <= nanos < (n + 1) * full && lang is Ru ==> o.ago@
                == crate::text::dec_text(n as nat) + " "@ + "д назад"@
            &&& nanos < 0 && lang is En ==> o.ago@ == crate::text::dec_text(0) + " "@ + "min ago"@
        },
{
    if let Some(o) = v.last_outage {
        let nanos = now.stamp() - o.at.stamp();
        let secs = crate::time::whole_seconds(nanos);
        let mins = if secs > 0 {
            secs / 60
        } else {
            0
        };
        assert(o.ago@ == crate::telemetry::minutes_ago_text(secs, lang));
        if n * 60_000_000_000 <= nanos < (n + 1) * 60_000_000_000 {
            assert(mins == n);
        }
        if n * 3_600_000_000_000 <= nanos < (n + 1) * 3_600_000_000_000 {
            assert(mins / 60 == n);
        }
        if n * 86_400_000_000_000 <= nanos < (n + 1) * 86_400_000_000_000 {
            assert(mins / 1440 == n);
        }
    }
}

/// Every row of the uptime table shows its own window.
pub proof fn rows_show_their_windows(
    v: UptimeSection,
    day: Option<UptimeStat>,
    week: Option<UptimeStat>,
    month: Option<UptimeStat>,
    lang: Locale,
    now: UtcTime,
)
    requires
        crate::telemetry::uptime_section(Some(v), day, week, month, lang, now),
    ensures
        day matches Some(s) ==> v.day.pct == s.uptime_pct && v.day.probes == s.total_rows
            && v.day.downs == s.down_rows,
        week matches Some(s) ==> v.week.pct == s.uptime_pct && v.week.probes == s.total_rows
            && v.week.downs == s.down_rows,
        month matches Some(s) ==> v.month.pct == s.uptime_pct && v.month.probes == s.total_rows
            && v.month.downs == s.down_rows,
        day is None ==> v.day.pct is None && v.day.probes == 0 && v.day.downs == 0,
        week is None ==> v.week.pct is None && v.week.probes == 0 && v.week.downs == 0,
        month is None ==> v.month.pct is None && v.month.probes == 0 && v.month.downs == 0,
        v.day.pct matches Some(p) ==> v.day.pct_attr@ == crate::text::dec_text(p as nat),
        v.week.pct matches Some(p) ==> v.week.pct_attr@ == crate::text::dec_text(p as nat),
        v.month.pct matches Some(p) ==> v.month.pct_attr@ == crate::text::dec_text(p as nat),
        v.day.pct is None ==> v.day.pct_attr@ == "none"@,
        v.week.pct is None ==> v.week.pct_attr@ == "none"@,
        v.month.pct is None ==> v.month.pct_attr@ == "none"@,
        lang is En ==> v.day.label == "last 24h" && v.week.label == "last 7d" && v.month.label
            == "last 30d",
        lang is Ru ==> v.day.label == "24 часа" && v.week.label == "7 дней" && v.month.label
            == "30 дней",
{
}

/// Used space as the whole number of hundredths of the total, at most 100, known
/// exactly where both are known and the total is not zero.
pub proof fn used_in_hundredths(used: Option<u64>, total: Option<u64>)
    ensures
        crate::telemetry::used_pct(used, total) is Some <==> used is Some && total is Some
            && total->0 > 0,
        crate::telemetry::used_pct(used, total) matches Some(p) ==> 0 <= p <= 100 && p * total->0
            <= used->0 * 100 && (p < 100 ==> used->0 * 100 < (p + 1) * total->0),
{
    if used is Some && total is Some && total->0 > 0 {
        lemma_hundredths(used->0 as int, total->0 as int);
    }
}

/// Memory in use is what is not available: the hundredths of the total that the
/// whole hundredths available leave, none where more is available than there
/// is.
pub proof fn in_use_is_what_is_not_available(available: Option<u64>, total: Option<u64>)
    ensures
        crate::telemetry::unavailable_pct(available, total) is Some <==> available is Some
            && total is Some && total->0 > 0,
        crate::telemetry::unavailable_pct(available, total) matches Some(p) ==> 0 <= p <= 100 && (
        100 - p) * total->0 <= available->0 * 100 && (p > 0 ==> available->0 * 100 < (101 - p)
            * total->0),
{
    if available is Some && total is Some && total->0 > 0 {
        lemma_hundredths(available->0 as int, total->0 as int);
    }
}

proof fn lemma_hundredths(part: int, total: int)
    requires
        part >= 0,
        total > 0,
    ensures
        part * 100 / total >= 0,
        (part * 100 / total) * total <= part * 100 < (part * 100 / total + 1) * total,
        part * 100 / total > 100 ==> 100 * total <= part * 100,
{
    let q = part * 100 / total;
    vstd::arithmetic::div_mod::lemma_fundamental_div_mod(part * 100, total);
    vstd::arithmetic::div_mod::lemma_mod_bound(part * 100, total);
    vstd::arithmetic::div_mod::lemma_div_pos_is_pos(part * 100, total);
    assert(total * q == q * total) by (nonlinear_arith);
    assert((q + 1) * total == q * total + total) by (nonlinear_arith);
    if q > 100 {
        assert(100 * total <= q * total) by (nonlinear_arith)
            requires
                q > 100,
                total > 0,
        ;
    }
}

/// Tiles warn of a service that is down, of more than 70 % of disk or memory in
/// use, and of a log of more than 500 MiB, and of nothing else. They show what
/// the probe reported and a question mark for what it did not.
pub proof fn tiles_warn_of_trouble(v: Hero, h: NodeHealth, log: Option<Seq<char>>, lang: Locale)
    requires
        crate::telemetry::hero_of(v, h, log, lang),
    ensures
        v.sing_box.warn <==> h.sing_box_active == Some(false),
        v.fail2ban.warn <==> h.fail2ban_active == Some(false),
        v.disk.warn <==> (h.disk_used_mib is Some && h.disk_total_mib is Some
            && h.disk_total_mib->0 > 0 && h.disk_used_mib->0 * 100 >= 71 * h.disk_total_mib->0),
        v.memory.warn <==> (h.mem_available_mib is Some && h.mem_total_mib is Some
            && h.mem_total_mib->0 > 0 && h.mem_available_mib->0 * 100 < 30 * h.mem_total_mib->0),
        !v.load.warn,
        v.log.warn <==> (h.sing_box_log_bytes is Some && h.sing_box_log_bytes->0 > 500 * 1024
            * 1024),
        v.log.warn <==> v.log.style@ == "color: "@ + "var(--acc)"@ + ";"@,
        h.sing_box_active == Some(true) && lang is En ==> v.sing_box.value@ == "active"@,
        h.sing_box_active == Some(false) && lang is En ==> v.sing_box.value@ == "down"@,
        h.sing_box_active is None ==> v.sing_box.value@ == "?"@,
        h.fail2ban_active == Some(true) && lang is En ==> v.fail2ban.value@ == "active"@,
        h.fail2ban_active == Some(false) && lang is En ==> v.fail2ban.value@ == "down"@,
        h.fail2ban_active is None ==> v.fail2ban.value@ == "?"@,
        crate::telemetry::used_pct(h.disk_used_mib, h.disk_total_mib) matches Some(p)
            ==> v.disk.value@ == crate::text::dec_text(p as nat) + "%"@,
        crate::telemetry::used_pct(h.disk_used_mib, h.disk_total_mib) is None ==> v.disk.value@
            == "?"@,
        crate::telemetry::unavailable_pct(h.mem_available_mib, h.mem_total_mib) matches Some(p)
            ==> v.memory.value@ == crate::text::dec_text(p as nat) + "%"@,
        crate::telemetry::unavailable_pct(h.mem_available_mib, h.mem_total_mib) is None
            ==> v.memory.value@ == "?"@,
        log matches Some(t) ==> v.log.value@ == t,
        log is None ==> v.log.value@ == "?"@,
{
    used_in_hundredths(h.disk_used_mib, h.disk_total_mib);
    in_use_is_what_is_not_available(h.mem_available_mib, h.mem_total_mib);
    if let Some(p) = crate::telemetry::used_pct(h.disk_used_mib, h.disk_total_mib) {
        lemma_scaled(p, 70, h.disk_total_mib->0 as int);
    }
    if let Some(p) = crate::telemetry::unavailable_pct(h.mem_available_mib, h.mem_total_mib) {
        lemma_scaled(100 - p, 29, h.mem_total_mib->0 as int);
    }
    let a = "color: "@ + "var(--acc)"@ + ";"@;
    let b = "color: "@ + "var(--ink)"@ + ";"@;
    assert(a != b) by {
        reveal_strlit("color: ");
        reveal_strlit("var(--acc)");
        reveal_strlit("var(--ink)");
        assert(a[13] == 'a');
        assert(b[13] == 'i');
    }
}

proof fn lemma_scaled(p: int, limit: int, total: int)
    requires
        total > 0,
    ensures
        p > limit ==> p * total >= (limit + 1) * total,
        p <= limit ==> (p + 1) * total <= (limit + 1) * total,
{
    if p > limit {
        assert(p * total >= (limit + 1) * total) by (nonlinear_arith)
            requires
                p >= limit + 1,
                total > 0,
        ;
    } else {
        assert((p + 1) * total <= (limit + 1) * total) by (nonlinear_arith)
            requires
                p + 1 <= limit + 1,
                total > 0,
        ;
    }
}

/// The load is printed with two decimals: a hundred times it is the number
/// reported.
pub proof fn load_with_two_decimals(whole: nat, cents: nat)
    requires
        cents < 100,
        100 * whole + cents <= u32::MAX,
    ensures
        crate::telemetry::load_text(Some((100 * whole + cents) as u32)) == crate::text::dec_text(
            whole,
        ) + "."@ + crate::text::dec2_text(cents),
        crate::telemetry::load_text(None) == "?"@,
{
}

/// The probe reported used and total disk.
pub open spec fn disk_known(h: NodeHealth) -> bool {
    h.disk_used_mib is Some && h.disk_total_mib is Some && h.disk_total_mib->0 > 0
}

/// The probe reported available and total memory.
pub open spec fn memory_known(h: NodeHealth) -> bool {
    h.mem_available_mib is Some && h.mem_total_mib is Some && h.mem_total_mib->0 > 0
}

/// Readings come oldest first, that is in the reverse order of the probes, one
/// for each probe that reported both values with a total above zero; of the log
/// one for each probe that reported its size.
pub proof fn readings_oldest_first(rows: Seq<NodeHealth>, i: int)
    requires
        0 <= i <= rows.len(),
    ensures
        crate::telemetry::disk_readings(rows, i) == rows.skip(i).reverse().filter(
            |h: NodeHealth| disk_known(h),
        ).map_values(|h: NodeHealth| (h.disk_used_mib->0, h.disk_total_mib->0)),
        crate::telemetry::memory_readings(rows, i) == rows.skip(i).reverse().filter(
            |h: NodeHealth| memory_known(h),
        ).map_values(|h: NodeHealth| (h.mem_available_mib->0, h.mem_total_mib->0)),
        crate::telemetry::log_readings(rows, i) == rows.skip(i).reverse().filter(
            |h: NodeHealth| h.sing_box_log_bytes is Some,
        ).map_values(|h: NodeHealth| h.sing_box_log_bytes->0),
    decreases rows.len() - i,
{
    reveal(Seq::filter);
    if i < rows.len() {
        readings_oldest_first(rows, i + 1);
        let s = rows.skip(i).reverse();
        assert(s.drop_last() =~= rows.skip(i + 1).reverse());
        assert(s.last() == rows[i]);
    } else {
        assert(rows.skip(i).reverse() =~= Seq::empty());
    }
}

/// Services read and are coloured by whether they run; the tiles carry their own
/// names.
pub proof fn services_by_whether_they_run(
    v: Hero,
    h: NodeHealth,
    log: Option<Seq<char>>,
    lang: Locale,
)
    requires
        crate::telemetry::hero_of(v, h, log, lang),
    ensures
        v.sing_box.label == "sing-box" && v.fail2ban.label == "fail2ban",
        h.sing_box_active == Some(true) ==> v.sing_box.style@ == "color: "@ + "var(--soft)"@ + ";"@,
        h.sing_box_active == Some(false) ==> v.sing_box.style@ == "color: "@ + "var(--acc)"@ + ";"@,
        h.sing_box_active is None ==> v.sing_box.style@ == "color: "@ + "var(--mute)"@ + ";"@,
        h.fail2ban_active == Some(true) ==> v.fail2ban.style@ == "color: "@ + "var(--soft)"@ + ";"@,
        h.fail2ban_active == Some(false) ==> v.fail2ban.style@ == "color: "@ + "var(--acc)"@ + ";"@,
        h.fail2ban_active is None ==> v.fail2ban.style@ == "color: "@ + "var(--mute)"@ + ";"@,
        lang is Ru && h.sing_box_active == Some(true) ==> v.sing_box.value@ == "активен"@,
        lang is Ru && h.sing_box_active == Some(false) ==> v.sing_box.value@ == "не работает"@,
        lang is Ru && h.fail2ban_active == Some(true) ==> v.fail2ban.value@ == "активен"@,
        lang is Ru && h.fail2ban_active == Some(false) ==> v.fail2ban.value@ == "не работает"@,
        lang is En ==> v.disk.label == "disk used" && v.memory.label == "memory used"
            && v.load.label == "1-min load" && v.log.label == "sing-box log",
        lang is Ru ==> v.disk.label == "диск занят" && v.memory.label == "память занята"
            && v.load.label == "load 1мин" && v.log.label == "лог sing-box",
        h.load_1min_x100 is None ==> v.load.value@ == "?"@,
        h.load_1min_x100 matches Some(l) ==> v.load.value@ == crate::text::dec_text(
            (l / 100) as nat,
        ) + "."@ + crate::text::dec2_text((l % 100) as nat),
{
}

} // verus!
