//! Probe telemetry of a node: status, uptime and resources.
use crate::locale::{tr, Locale};
use crate::text::{cat2, cat3, dec, dec2};
use crate::time::{utc_now, UtcTime};
use vstd::prelude::*;

verus! {

/// What one probe of a node found; missing values were not reported.
pub struct NodeHealth {
    pub ts: UtcTime,
    pub sing_box_active: Option<bool>,
    pub fail2ban_active: Option<bool>,
    pub disk_used_mib: Option<u64>,
    pub disk_total_mib: Option<u64>,
    pub mem_available_mib: Option<u64>,
    pub mem_total_mib: Option<u64>,
    /// One-minute load in hundredths.
    pub load_1min_x100: Option<u32>,
    pub sing_box_log_bytes: Option<u64>,
    pub listening_ports_json: Option<String>,
    pub kernel_versions_json: Option<String>,
}

/// Log size above which the node needs attention: 500 MiB.
pub const LOG_ALERT_BYTES: u64 = 524_288_000;

/// Percent of disk or memory above which a tile warns.
pub const USAGE_WARN_PCT: u64 = 70;

/// Age of the newest probe, in seconds, above which the poller may be stalled.
pub const STALE_PROBE_SECS: i64 = 1200;

/// Uptime over one window.
pub struct UptimeStat {
    /// Percent of decidable probes that found the service up.
    pub uptime_pct: Option<u8>,
    pub total_rows: u64,
    pub down_rows: u64,
    pub last_outage_at: Option<UtcTime>,
    pub last_probe_at: Option<UtcTime>,
}

/// One row of the uptime table.
pub struct UptimeRow {
    pub label: &'static str,
    pub pct: Option<u8>,
    /// The percentage, or `none`.
    pub pct_attr: String,
    pub probes: u64,
    pub downs: u64,
}

/// The last outage and how long ago it was.
pub struct Outage {
    pub at: UtcTime,
    pub ago: String,
}

/// The uptime section.
pub struct UptimeSection {
    pub day: UptimeRow,
    pub week: UptimeRow,
    pub month: UptimeRow,
    pub last_outage: Option<Outage>,
    /// The newest probe is too old.
    pub stale: bool,
}

/// `r` shows a window.
pub open spec fn uptime_row(r: UptimeRow, label: &'static str, stat: Option<UptimeStat>) -> bool {
    let pct = match stat {
        Some(s) => s.uptime_pct,
        None => None,
    };
    &&& r.label == label
    &&& r.pct == pct
    &&& r.pct_attr@ == (match pct {
        Some(p) => crate::text::dec_text(p as nat),
        None => "none"@,
    })
    &&& r.probes == (match stat {
        Some(s) => s.total_rows,
        None => 0,
    })
    &&& r.downs == (match stat {
        Some(s) => s.down_rows,
        None => 0,
    })
}

/// A window that was down throughout is told apart from one without data.
pub proof fn no_data_is_not_zero(r: UptimeRow, label: &'static str, stat: Option<UptimeStat>)
    requires
        uptime_row(r, label, stat),
    ensures
        r.pct_attr@ == "none"@ <==> r.pct is None,
{
    reveal_strlit("none");
    if r.pct is Some {
        crate::text::decimal_reads_back(r.pct->0 as nat, 255);
        let text = crate::text::dec_text(r.pct->0 as nat);
        if text == "none"@ {
            assert(!crate::text::is_digit("none"@[0]));
        }
    }
}

/// Whether any window has a probe.
pub open spec fn any_probe(
    day: Option<UptimeStat>,
    week: Option<UptimeStat>,
    month: Option<UptimeStat>,
) -> bool {
    (day matches Some(s) && s.total_rows > 0) || (week matches Some(s) && s.total_rows > 0) || (
    month matches Some(s) && s.total_rows > 0)
}

/// The outage that a window recorded.
pub open spec fn outage_in(stat: Option<UptimeStat>) -> Option<UtcTime> {
    match stat {
        Some(s) => s.last_outage_at,
        None => None,
    }
}

/// The newest probe that a window recorded.
pub open spec fn probe_in(stat: Option<UptimeStat>) -> Option<UtcTime> {
    match stat {
        Some(s) => s.last_probe_at,
        None => None,
    }
}

/// The later of two instants that may be absent.
pub open spec fn later_of(a: Option<UtcTime>, b: Option<UtcTime>) -> Option<UtcTime> {
    match (a, b) {
        (Some(x), Some(y)) => if y.stamp() > x.stamp() {
            b
        } else {
            a
        },
        (Some(_), None) => a,
        (None, _) => b,
    }
}

/// The newest of three instants that may be absent.
pub open spec fn newest_of(
    a: Option<UtcTime>,
    b: Option<UtcTime>,
    c: Option<UtcTime>,
) -> Option<UtcTime> {
    later_of(later_of(a, b), c)
}

/// `o`, where it is there, is no later than `at`.
pub open spec fn not_after(o: Option<UtcTime>, at: UtcTime) -> bool {
    match o {
        Some(t) => t.stamp() <= at.stamp(),
        None => true,
    }
}

/// What is shown as the last outage is the newest that any of the three
/// windows recorded, whichever of them recorded it; none is shown exactly
/// where no window recorded one.
pub proof fn last_outage_is_the_newest(
    v: UptimeSection,
    day: Option<UptimeStat>,
    week: Option<UptimeStat>,
    month: Option<UptimeStat>,
    lang: Locale,
    now: UtcTime,
)
    requires
        uptime_section(Some(v), day, week, month, lang, now),
    ensures
        match v.last_outage {
            Some(o) => {
                let at = Some(o.at);
                &&& at == outage_in(day) || at == outage_in(week) || at == outage_in(month)
                &&& not_after(outage_in(day), o.at)
                &&& not_after(outage_in(week), o.at)
                &&& not_after(outage_in(month), o.at)
            },
            None => outage_in(day) is None && outage_in(week) is None && outage_in(month) is None,
        },
{
}

/// Minutes ago in words; an instant to come counts as now.
pub open spec fn minutes_ago_text(secs: int, lang: Locale) -> Seq<char> {
    let mins = if secs > 0 {
        secs / 60
    } else {
        0
    };
    if mins < 60 {
        crate::text::dec_text(mins as nat) + " "@ + crate::locale::in_language(
            lang,
            "min ago",
            "мин назад",
        )@
    } else if mins < 1440 {
        crate::text::dec_text((mins / 60) as nat) + " "@ + crate::locale::in_language(
            lang,
            "h ago",
            "ч назад",
        )@
    } else {
        crate::text::dec_text((mins / 1440) as nat) + " "@ + crate::locale::in_language(
            lang,
            "d ago",
            "д назад",
        )@
    }
}

/// `v` is the uptime section at `now`; there is none without a probe in any
/// window. Outage and probe are each the newest that any of the three windows
/// recorded.
pub open spec fn uptime_section(
    v: Option<UptimeSection>,
    day: Option<UptimeStat>,
    week: Option<UptimeStat>,
    month: Option<UptimeStat>,
    lang: Locale,
    now: UtcTime,
) -> bool {
    match v {
        None => !any_probe(day, week, month),
        Some(v) => {
            &&& any_probe(day, week, month)
            &&& uptime_row(v.day, crate::locale::in_language(lang, "last 24h", "24 часа"), day)
            &&& uptime_row(v.week, crate::locale::in_language(lang, "last 7d", "7 дней"), week)
            &&& uptime_row(v.month, crate::locale::in_language(lang, "last 30d", "30 дней"), month)
            &&& match newest_of(outage_in(day), outage_in(week), outage_in(month)) {
                Some(at) => v.last_outage matches Some(o) && o.at == at && o.ago@
                    == minutes_ago_text(
                    crate::time::whole_seconds(now.stamp() - at.stamp()),
                    lang,
                ),
                None => v.last_outage is None,
            }
            &&& v.stale == (match newest_of(probe_in(day), probe_in(week), probe_in(month)) {
                Some(at) => crate::time::whole_seconds(now.stamp() - at.stamp())
                    > STALE_PROBE_SECS,
                None => false,
            })
        },
    }
}

fn window_row(label: &'static str, stat: &Option<UptimeStat>) -> (r: UptimeRow)
    ensures
        uptime_row(r, label, *stat),
{
    match stat {
        Some(s) => UptimeRow {
            label,
            pct: s.uptime_pct,
            pct_attr: match s.uptime_pct {
                Some(p) => dec(p as u64),
                None => "none".to_owned(),
            },
            probes: s.total_rows,
            downs: s.down_rows,
        },
        None => UptimeRow {
            label,
            pct: None,
            pct_attr: "none".to_owned(),
            probes: 0,
            downs: 0,
        },
    }
}

fn has_probe(stat: &Option<UptimeStat>) -> (r: bool)
    ensures
        r == (*stat matches Some(s) && s.total_rows > 0),
{
    match stat {
        Some(s) => s.total_rows > 0,
        None => false,
    }
}

fn outage_of(stat: &Option<UptimeStat>) -> (r: Option<UtcTime>)
    ensures
        r == outage_in(*stat),
{
    match stat {
        Some(s) => s.last_outage_at,
        None => None,
    }
}

fn probe_of(stat: &Option<UptimeStat>) -> (r: Option<UtcTime>)
    ensures
        r == probe_in(*stat),
{
    match stat {
        Some(s) => s.last_probe_at,
        None => None,
    }
}

fn pick_later(a: Option<UtcTime>, b: Option<UtcTime>) -> (r: Option<UtcTime>)
    ensures
        r == later_of(a, b),
{
    match (a, b) {
        (Some(x), Some(y)) => if y.after(&x) {
            b
        } else {
            a
        },
        (Some(_), None) => a,
        (None, _) => b,
    }
}

fn pick_newest(a: Option<UtcTime>, b: Option<UtcTime>, c: Option<UtcTime>) -> (r: Option<UtcTime>)
    ensures
        r == newest_of(a, b, c),
{
    let front = pick_later(a, b);
    pick_later(front, c)
}

fn minutes_ago(secs: i64, lang: Locale) -> (r: String)
    ensures
        r@ == minutes_ago_text(secs as int, lang),
{
    let mins: u64 = if secs > 0 {
        secs as u64 / 60
    } else {
        0
    };
    if mins < 60 {
        let n = dec(mins);
        cat3(n.as_str(), " ", tr(lang, "min ago", "мин назад"))
    } else if mins < 1440 {
        let n = dec(mins / 60);
        cat3(n.as_str(), " ", tr(lang, "h ago", "ч назад"))
    } else {
        let n = dec(mins / 1440);
        cat3(n.as_str(), " ", tr(lang, "d ago", "д назад"))
    }
}

/// The uptime section at `now`.
pub fn server_detail_uptime_section_at(
    u24h: &Option<UptimeStat>,
    u7d: &Option<UptimeStat>,
    u30d: &Option<UptimeStat>,
    lang: Locale,
    now: UtcTime,
) -> (r: Option<UptimeSection>)
    ensures
        uptime_section(r, *u24h, *u7d, *u30d, lang, now),
{
    if !(has_probe(u24h) || has_probe(u7d) || has_probe(u30d)) {
        return None;
    }
    let last_outage = match pick_newest(outage_of(u24h), outage_of(u7d), outage_of(u30d)) {
        Some(at) => {
            let secs: i64 = now.seconds_since(&at);
            Some(Outage { at, ago: minutes_ago(secs, lang) })
        },
        None => None,
    };
    let stale = match pick_newest(probe_of(u24h), probe_of(u7d), probe_of(u30d)) {
        Some(at) => now.seconds_since(&at) > STALE_PROBE_SECS,
        None => false,
    };
    Some(
        UptimeSection {
            day: window_row(tr(lang, "last 24h", "24 часа"), u24h),
            week: window_row(tr(lang, "last 7d", "7 дней"), u7d),
            month: window_row(tr(lang, "last 30d", "30 дней"), u30d),
            last_outage,
            stale,
        },
    )
}

/// The uptime section at the current instant.
pub fn server_detail_uptime_section(
    u24h: &Option<UptimeStat>,
    u7d: &Option<UptimeStat>,
    u30d: &Option<UptimeStat>,
    lang: Locale,
) -> (r: Option<UptimeSection>)
    ensures
        exists|now: UtcTime|
            0 <= now.seconds() && #[trigger] uptime_section(r, *u24h, *u7d, *u30d, lang, now),
{
    let now = utc_now();
    server_detail_uptime_section_at(u24h, u7d, u30d, lang, now)
}

/// A labelled value.
pub struct StatusTile {
    pub class: &'static str,
    pub label: &'static str,
    pub value: String,
    pub style: String,
    /// The value carries a warning sign.
    pub warn: bool,
}

/// `t` shows `value` under `label`.
pub open spec fn tile_of(
    t: StatusTile,
    label: &'static str,
    value: Seq<char>,
    colour: Seq<char>,
    warn: bool,
) -> bool {
    &&& t.class == (if warn {
        "ed-status-tile warn"
    } else {
        "ed-status-tile"
    })
    &&& t.label == label
    &&& t.value@ == value
    &&& t.style@ == "color: "@ + colour + ";"@
    &&& t.warn == warn
}

/// A tile that may warn.
pub fn status_tile_with_warn(
    label: &'static str,
    value: &str,
    value_color: &str,
    warn: bool,
) -> (r: StatusTile)
    ensures
        tile_of(r, label, value@, value_color@, warn),
{
    StatusTile {
        class: if warn {
            "ed-status-tile warn"
        } else {
            "ed-status-tile"
        },
        label,
        value: value.to_owned(),
        style: cat3("color: ", value_color, ";"),
        warn,
    }
}

/// A tile that never warns.
pub fn status_tile(label: &'static str, value: &str, value_color: &str) -> (r: StatusTile)
    ensures
        tile_of(r, label, value@, value_color@, false),
{
    status_tile_with_warn(label, value, value_color, false)
}

/// Whether a service runs, in words.
pub open spec fn service_text(active: Option<bool>, lang: Locale) -> Seq<char> {
    match active {
        Some(true) => crate::locale::in_language(lang, "active", "активен")@,
        Some(false) => crate::locale::in_language(lang, "down", "не работает")@,
        None => "?"@,
    }
}

/// Colour of a service tile.
pub open spec fn service_colour(active: Option<bool>) -> Seq<char> {
    match active {
        Some(true) => "var(--soft)"@,
        Some(false) => "var(--acc)"@,
        None => "var(--mute)"@,
    }
}

/// Used percent of a total, at most 100; unknown where a value is missing or
/// the total is zero.
pub open spec fn used_pct(used: Option<u64>, total: Option<u64>) -> Option<int> {
    match (used, total) {
        (Some(u), Some(t)) => if t > 0 {
            let p = u * 100 / (t as int);
            Some(
                if p > 100 {
                    100
                } else {
                    p
                },
            )
        } else {
            None
        },
        _ => None,
    }
}

/// Percent of a total that is not available, at least 0.
pub open spec fn unavailable_pct(available: Option<u64>, total: Option<u64>) -> Option<int> {
    match (available, total) {
        (Some(a), Some(t)) => if t > 0 {
            let p = a * 100 / (t as int);
            Some(
                if p > 100 {
                    0
                } else {
                    100 - p
                },
            )
        } else {
            None
        },
        _ => None,
    }
}

/// A percentage in words.
pub open spec fn pct_text(pct: Option<int>) -> Seq<char> {
    match pct {
        Some(p) => crate::text::dec_text(p as nat) + "%"@,
        None => "?"@,
    }
}

/// Hundredths with two decimals.
pub open spec fn load_text(load: Option<u32>) -> Seq<char> {
    match load {
        Some(l) => crate::text::dec_text((l / 100) as nat) + "."@ + crate::text::dec2_text(
            (l % 100) as nat,
        ),
        None => "?"@,
    }
}

/// The latest probe at a glance.
pub struct Hero {
    pub sing_box: StatusTile,
    pub fail2ban: StatusTile,
    pub disk: StatusTile,
    pub memory: StatusTile,
    pub load: StatusTile,
    pub log: StatusTile,
}

/// Whether a log of this size needs attention.
pub open spec fn log_too_big(bytes: Option<u64>) -> bool {
    bytes matches Some(b) && b > LOG_ALERT_BYTES
}

/// `v` shows the probe `h`, whose log size reads `log`.
pub open spec fn hero_of(v: Hero, h: NodeHealth, log: Option<Seq<char>>, lang: Locale) -> bool {
    let disk = used_pct(h.disk_used_mib, h.disk_total_mib);
    let memory = unavailable_pct(h.mem_available_mib, h.mem_total_mib);
    &&& tile_of(
        v.sing_box,
        "sing-box",
        service_text(h.sing_box_active, lang),
        service_colour(h.sing_box_active),
        h.sing_box_active == Some(false),
    )
    &&& tile_of(
        v.fail2ban,
        "fail2ban",
        service_text(h.fail2ban_active, lang),
        service_colour(h.fail2ban_active),
        h.fail2ban_active == Some(false),
    )
    &&& tile_of(
        v.disk,
        crate::locale::in_language(lang, "disk used", "диск занят"),
        pct_text(disk),
        "var(--ink)"@,
        disk matches Some(p) && p > USAGE_WARN_PCT,
    )
    &&& tile_of(
        v.memory,
        crate::locale::in_language(lang, "memory used", "память занята"),
        pct_text(memory),
        "var(--ink)"@,
        memory matches Some(p) && p > USAGE_WARN_PCT,
    )
    &&& tile_of(
        v.load,
        crate::locale::in_language(lang, "1-min load", "load 1мин"),
        load_text(h.load_1min_x100),
        "var(--ink)"@,
        false,
    )
    &&& tile_of(
        v.log,
        crate::locale::in_language(lang, "sing-box log", "лог sing-box"),
        match log {
            Some(t) => t,
            None => "?"@,
        },
        if log_too_big(h.sing_box_log_bytes) {
            "var(--acc)"@
        } else {
            "var(--ink)"@
        },
        log_too_big(h.sing_box_log_bytes),
    )
}

fn service(active: Option<bool>, lang: Locale) -> (r: &'static str)
    ensures
        r@ == service_text(active, lang),
{
    match active {
        Some(b) => if b {
            tr(lang, "active", "активен")
        } else {
            tr(lang, "down", "не работает")
        },
        None => "?",
    }
}

fn colour_of(active: Option<bool>) -> (r: &'static str)
    ensures
        r@ == service_colour(active),
{
    match active {
        Some(b) => if b {
            "var(--soft)"
        } else {
            "var(--acc)"
        },
        None => "var(--mute)",
    }
}

fn share(part: u64, total: u64) -> (r: u128)
    requires
        total > 0,
    ensures
        r == part * 100 / (total as int),
{
    part as u128 * 100 / total as u128
}

fn disk_pct(h: &NodeHealth) -> (r: Option<u64>)
    ensures
        match r {
            Some(p) => used_pct(h.disk_used_mib, h.disk_total_mib) == Some(p as int) && p <= 100,
            None => used_pct(h.disk_used_mib, h.disk_total_mib) is None,
        },
{
    match (h.disk_used_mib, h.disk_total_mib) {
        (Some(u), Some(t)) => if t > 0 {
            let p: u128 = share(u, t);
            if p > 100 {
                Some(100)
            } else {
                Some(p as u64)
            }
        } else {
            None
        },
        _ => None,
    }
}

fn mem_pct(h: &NodeHealth) -> (r: Option<u64>)
    ensures
        match r {
            Some(p) => unavailable_pct(h.mem_available_mib, h.mem_total_mib) == Some(p as int) && p
                <= 100,
            None => unavailable_pct(h.mem_available_mib, h.mem_total_mib) is None,
        },
{
    match (h.mem_available_mib, h.mem_total_mib) {
        (Some(a), Some(t)) => if t > 0 {
            let p: u128 = share(a, t);
            if p > 100 {
                Some(0)
            } else {
                Some(100 - p as u64)
            }
        } else {
            None
        },
        _ => None,
    }
}

fn pct_label(pct: Option<u64>) -> (r: String)
    ensures
        r@ == pct_text(
            match pct {
                Some(p) => Some(p as int),
                None => None,
            },
        ),
{
    match pct {
        Some(p) => {
            let n = dec(p);
            cat2(n.as_str(), "%")
        },
        None => "?".to_owned(),
    }
}

/// The latest probe at a glance, none before the first. `log_text` is the
/// rendered size of the log, where the probe reported one.
pub fn server_detail_hero(
    latest: &Option<NodeHealth>,
    log_text: Option<&str>,
    lang: Locale,
) -> (r: Option<Hero>)
    ensures
        match *latest {
            None => r is None,
            Some(h) => r matches Some(v) && hero_of(v, h, crate::text::opt_text(log_text), lang),
        },
{
    let h = match latest {
        None => {
            return None;
        },
        Some(h) => h,
    };
    let disk = disk_pct(h);
    let memory = mem_pct(h);
    let disk_text = pct_label(disk);
    let memory_text = pct_label(memory);
    let load = match h.load_1min_x100 {
        Some(l) => {
            let whole = dec((l / 100) as u64);
            let part = dec2((l % 100) as u64);
            cat3(whole.as_str(), ".", part.as_str())
        },
        None => "?".to_owned(),
    };
    let big = match h.sing_box_log_bytes {
        Some(b) => b > LOG_ALERT_BYTES,
        None => false,
    };
    let sb_down = match h.sing_box_active {
        Some(b) => !b,
        None => false,
    };
    let f2b_down = match h.fail2ban_active {
        Some(b) => !b,
        None => false,
    };
    Some(
        Hero {
            sing_box: status_tile_with_warn(
                "sing-box",
                service(h.sing_box_active, lang),
                colour_of(h.sing_box_active),
                sb_down,
            ),
            fail2ban: status_tile_with_warn(
                "fail2ban",
                service(h.fail2ban_active, lang),
                colour_of(h.fail2ban_active),
                f2b_down,
            ),
            disk: status_tile_with_warn(
                tr(lang, "disk used", "диск занят"),
                disk_text.as_str(),
                "var(--ink)",
                match disk {
                    Some(p) => p > USAGE_WARN_PCT,
                    None => false,
                },
            ),
            memory: status_tile_with_warn(
                tr(lang, "memory used", "память занята"),
                memory_text.as_str(),
                "var(--ink)",
                match memory {
                    Some(p) => p > USAGE_WARN_PCT,
                    None => false,
                },
            ),
            load: status_tile_with_warn(
                tr(lang, "1-min load", "load 1мин"),
                load.as_str(),
                "var(--ink)",
                false,
            ),
            log: status_tile_with_warn(
                tr(lang, "sing-box log", "лог sing-box"),
                match log_text {
                    Some(t) => t,
                    None => "?",
                },
                if big {
                    "var(--acc)"
                } else {
                    "var(--ink)"
                },
                big,
            ),
        },
    )
}

/// Resource readings of a window, oldest first.
pub struct ResourceTrend {
    /// Used and total disk of each probe that reported both.
    pub disk: Vec<(u64, u64)>,
    /// Available and total memory of each probe that reported both.
    pub memory: Vec<(u64, u64)>,
    /// Log size of each probe that reported one.
    pub log: Vec<u64>,
    pub samples: usize,
}

/// A reading and its total, where both are there and the total is not zero.
pub open spec fn ratio(part: Option<u64>, total: Option<u64>) -> Option<(u64, u64)> {
    match (part, total) {
        (Some(p), Some(t)) => if t == 0 {
            None
        } else {
            Some((p, t))
        },
        _ => None,
    }
}

/// Disk readings of the rows from `i` on, last row first.
pub open spec fn disk_readings(rows: Seq<NodeHealth>, i: int) -> Seq<(u64, u64)>
    decreases rows.len() - i,
{
    if i >= rows.len() {
        Seq::empty()
    } else {
        match ratio(rows[i].disk_used_mib, rows[i].disk_total_mib) {
            Some(p) => disk_readings(rows, i + 1).push(p),
            None => disk_readings(rows, i + 1),
        }
    }
}

/// Memory readings of the rows from `i` on, last row first.
pub open spec fn memory_readings(rows: Seq<NodeHealth>, i: int) -> Seq<(u64, u64)>
    decreases rows.len() - i,
{
    if i >= rows.len() {
        Seq::empty()
    } else {
        match ratio(rows[i].mem_available_mib, rows[i].mem_total_mib) {
            Some(p) => memory_readings(rows, i + 1).push(p),
            None => memory_readings(rows, i + 1),
        }
    }
}

/// Log sizes of the rows from `i` on, last row first.
pub open spec fn log_readings(rows: Seq<NodeHealth>, i: int) -> Seq<u64>
    decreases rows.len() - i,
{
    if i >= rows.len() {
        Seq::empty()
    } else {
        match rows[i].sing_box_log_bytes {
            Some(b) => log_readings(rows, i + 1).push(b),
            None => log_readings(rows, i + 1),
        }
    }
}

fn pair(part: Option<u64>, total: Option<u64>) -> (r: Option<(u64, u64)>)
    ensures
        r == ratio(part, total),
{
    match (part, total) {
        (Some(p), Some(t)) => if t == 0 {
            None
        } else {
            Some((p, t))
        },
        _ => None,
    }
}

/// Resource readings of a window in order of time, from probes that come
/// newest first; nothing without probes.
pub fn server_detail_resource_trend_section(trend_rows: &Vec<NodeHealth>) -> (r: Option<
    ResourceTrend,
>)
    ensures
        r is None <==> trend_rows@.len() == 0,
        r matches Some(t) ==> {
            &&& t.disk@ == disk_readings(trend_rows@, 0)
            &&& t.memory@ == memory_readings(trend_rows@, 0)
            &&& t.log@ == log_readings(trend_rows@, 0)
            &&& t.samples == trend_rows@.len()
        },
{
    if trend_rows.len() == 0 {
        return None;
    }
    let mut disk: Vec<(u64, u64)> = Vec::new();
    let mut memory: Vec<(u64, u64)> = Vec::new();
    let mut log: Vec<u64> = Vec::new();
    let mut i: usize = trend_rows.len();
    while i > 0
        invariant
            i <= trend_rows.len(),
            disk@ == disk_readings(trend_rows@, i as int),
            memory@ == memory_readings(trend_rows@, i as int),
            log@ == log_readings(trend_rows@, i as int),
        decreases i,
    {
        i = i - 1;
        let row = &trend_rows[i];
        match pair(row.disk_used_mib, row.disk_total_mib) {
            Some(p) => disk.push(p),
            None => {},
        }
        match pair(row.mem_available_mib, row.mem_total_mib) {
            Some(p) => memory.push(p),
            None => {},
        }
        match row.sing_box_log_bytes {
            Some(b) => log.push(b),
            None => {},
        }
    }
    Some(ResourceTrend { disk, memory, log, samples: trend_rows.len() })
}

} // verus!
