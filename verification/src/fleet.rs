//! Health of the whole fleet.
use crate::locale::{tr, Locale};
use crate::telemetry::{
    server_detail_resource_trend_section, status_tile_with_warn, NodeHealth, ResourceTrend,
    StatusTile, UptimeStat,
};
use crate::text::{cat2, cat3, cat4, cat5, dec, parse_u64, same, starts_with};
use crate::time::{format_at, utc_now, UtcTime};
use vstd::prelude::*;

verus! {

/// A node of the fleet.
pub struct FleetNode {
    pub id: String,
    /// The id, path-encoded.
    pub path: String,
    pub latest: Option<NodeHealth>,
    /// Used memory of the latest probe, in percent.
    pub mem_pct: Option<u8>,
    /// Used disk of the latest probe, in percent.
    pub disk_pct: Option<u8>,
    pub uptime_24h: Option<UptimeStat>,
    /// Probes of the last day, newest first.
    pub trend: Vec<NodeHealth>,
}

/// Open alerts of one kind and severity.
pub struct AlertCount {
    pub kind: String,
    pub count: u64,
}

/// The version of the service that a node reported, if any.
pub struct KernelVersion {
    pub server_id: String,
    pub version: Option<String>,
}

/// A recorded alert.
pub struct AdminAlert {
    pub kind: String,
    pub created_at: UtcTime,
    pub acked: bool,
}

/// When the health monitor raises an alert.
pub struct Thresholds {
    pub mem_pct: u64,
    pub disk_pct: u64,
    pub log_bytes: u64,
    /// Failed probes in a row.
    pub unreachable: u64,
}

/// What the monitoring page is made of.
pub struct FleetFacts {
    pub nodes: Vec<FleetNode>,
    pub alerts: Vec<AlertCount>,
    pub versions: Vec<KernelVersion>,
    /// The version that most nodes run.
    pub majority: Option<String>,
    pub recent_alerts: Vec<AdminAlert>,
    pub thresholds: Thresholds,
    /// Configured seconds between probes, as text.
    pub probe_interval: Option<String>,
}

/// Whether the latest probe found the service of a node up.
pub open spec fn node_up(n: FleetNode) -> bool {
    n.latest matches Some(h) && h.sing_box_active == Some(true)
}

/// Nodes among the first `n` that are up.
pub open spec fn nodes_up(nodes: Seq<FleetNode>, n: int) -> int
    decreases n,
{
    if n <= 0 {
        0
    } else {
        nodes_up(nodes, n - 1) + (if node_up(nodes[n - 1]) {
            1int
        } else {
            0
        })
    }
}

/// Open alerts among the first `n` entries.
pub open spec fn alerts_open(alerts: Seq<AlertCount>, n: int) -> int
    decreases n,
{
    if n <= 0 {
        0
    } else {
        alerts_open(alerts, n - 1) + alerts[n - 1].count
    }
}

/// Whether a kind of alert concerns subscription access.
pub open spec fn sub_access_kind(kind: Seq<char>) -> bool {
    "sub_access."@.is_prefix_of(kind)
}

/// Open alerts on subscription access among the first `n` entries.
pub open spec fn sub_access_open(alerts: Seq<AlertCount>, n: int) -> int
    decreases n,
{
    if n <= 0 {
        0
    } else {
        sub_access_open(alerts, n - 1) + (if sub_access_kind(alerts[n - 1].kind@) {
            alerts[n - 1].count as int
        } else {
            0
        })
    }
}

/// Probes of the last day over the first `n` nodes.
pub open spec fn day_probes(nodes: Seq<FleetNode>, n: int) -> int
    decreases n,
{
    if n <= 0 {
        0
    } else {
        day_probes(nodes, n - 1) + (match nodes[n - 1].uptime_24h {
            Some(u) => u.total_rows as int,
            None => 0,
        })
    }
}

/// The sums of the page fit in 64 bits.
pub open spec fn sums_fit(f: FleetFacts) -> bool {
    alerts_open(f.alerts@, f.alerts@.len() as int) <= u64::MAX && day_probes(
        f.nodes@,
        f.nodes@.len() as int,
    ) <= u64::MAX
}

/// What is measured on a node.
#[derive(Clone, Copy, PartialEq, Eq, Structural, Debug)]
pub enum Metric {
    Memory,
    Disk,
    /// Whole MiB of the service's log.
    LogMib,
}

/// The value of a metric on a node, if known.
pub open spec fn metric(n: FleetNode, m: Metric) -> Option<u64> {
    match m {
        Metric::Memory => match n.mem_pct {
            Some(p) => Some(p as u64),
            None => None,
        },
        Metric::Disk => match n.disk_pct {
            Some(p) => Some(p as u64),
            None => None,
        },
        Metric::LogMib => match n.latest {
            Some(h) => match h.sing_box_log_bytes {
                Some(b) => Some(b / 1_048_576),
                None => None,
            },
            None => None,
        },
    }
}

/// `w` is the position of the last node with the greatest known value.
pub open spec fn worst_node(nodes: Seq<FleetNode>, m: Metric, w: Option<usize>) -> bool {
    match w {
        None => forall|i: int| 0 <= i < nodes.len() ==> metric(#[trigger] nodes[i], m) is None,
        Some(w) => {
            &&& w < nodes.len()
            &&& metric(nodes[w as int], m) is Some
            &&& forall|i: int|
                0 <= i < nodes.len() && metric(#[trigger] nodes[i], m) is Some ==> metric(
                    nodes[i],
                    m,
                )->0 <= metric(nodes[w as int], m)->0
            &&& forall|i: int|
                w < i < nodes.len() && metric(#[trigger] nodes[i], m) is Some ==> metric(
                    nodes[i],
                    m,
                )->0 < metric(nodes[w as int], m)->0
        },
    }
}

/// A node whose version differs from the majority.
pub struct Drifted {
    /// Position of the node.
    pub node: usize,
    pub version: String,
}

/// Position of the first of the nodes from `i` on with id `id`.
pub open spec fn node_at(nodes: Seq<FleetNode>, id: Seq<char>, i: int) -> Option<int>
    decreases nodes.len() - i,
{
    if i >= nodes.len() {
        None
    } else if nodes[i].id@ == id {
        Some(i)
    } else {
        node_at(nodes, id, i + 1)
    }
}

/// Nodes and versions among the first `n` reports that differ from the
/// majority; reports of unknown nodes are left out.
pub open spec fn drifted_nodes(f: FleetFacts, n: int) -> Seq<(int, Seq<char>)>
    decreases n,
{
    if n <= 0 {
        Seq::empty()
    } else {
        let before = drifted_nodes(f, n - 1);
        match f.versions@[n - 1].version {
            None => before,
            Some(v) => match node_at(f.nodes@, f.versions@[n - 1].server_id@, 0) {
                Some(at) => if crate::text::opt_string(f.majority) != Some(v@) {
                    before.push((at, v@))
                } else {
                    before
                },
                None => before,
            },
        }
    }
}

/// Minutes between probes: the configured seconds, 600 for anything else.
pub open spec fn tick_minutes(raw: Option<Seq<char>>) -> int {
    match raw {
        Some(s) => match crate::text::parsed_number(s, u64::MAX as nat) {
            Some(n) => n as int / 60,
            None => 10,
        },
        None => 10,
    }
}

/// Newest of the latest probes of the first `n` nodes.
pub open spec fn newest_probe(nodes: Seq<FleetNode>, n: int) -> Option<UtcTime>
    decreases n,
{
    if n <= 0 {
        None
    } else {
        let before = newest_probe(nodes, n - 1);
        match nodes[n - 1].latest {
            None => before,
            Some(h) => match before {
                Some(t) => if t.stamp() > h.ts.stamp() {
                    Some(t)
                } else {
                    Some(h.ts)
                },
                None => Some(h.ts),
            },
        }
    }
}

/// A failed probe.
pub struct ProbeFailure {
    /// Position of the alert.
    pub at: usize,
    /// When it was, in UTC.
    pub when: String,
    pub acked: bool,
}

/// Whether an alert is a failed probe of the last seven days.
pub open spec fn recent_failure(a: AdminAlert, now: UtcTime) -> bool {
    "server.unreachable"@.is_prefix_of(a.kind@) && now.stamp() - a.created_at.stamp() < 7 * 86_400
        * crate::time::NANOS
}

/// Positions of the failed probes among the first `n` alerts.
pub open spec fn failures_at(alerts: Seq<AdminAlert>, now: UtcTime, n: int) -> Seq<int>
    decreases n,
{
    if n <= 0 {
        Seq::empty()
    } else {
        let before = failures_at(alerts, now, n - 1);
        if recent_failure(alerts[n - 1], now) {
            before.push(n - 1)
        } else {
            before
        }
    }
}

/// `p` shows alert `at`.
pub open spec fn failure_of(p: ProbeFailure, at: int, alerts: Seq<AdminAlert>) -> bool {
    &&& p.at == at
    &&& p.when@ == crate::time::calendar_text(alerts[at].created_at.seconds(), 0, "%m-%d %H:%M"@)
    &&& p.acked == alerts[at].acked
}

/// Row of a threshold.
pub struct ThresholdRow {
    pub class: &'static str,
    pub value: String,
    /// Where the value is worst.
    pub place: String,
    /// An alert is open.
    pub open: bool,
}

/// `r` shows the worst value of a metric.
pub open spec fn threshold_row(
    r: ThresholdRow,
    f: FleetFacts,
    m: Metric,
    w: Option<usize>,
    limit: int,
    unit: Seq<char>,
    kind: Seq<char>,
) -> bool {
    &&& r.class == (if w is Some && metric(f.nodes@[w->0 as int], m)->0 > limit {
        "num warn"
    } else {
        "num"
    })
    &&& r.value@ == (match w {
        Some(w) => crate::text::dec_text(metric(f.nodes@[w as int], m)->0 as nat) + unit,
        None => "—"@,
    })
    &&& r.place@ == (match w {
        Some(w) => f.nodes@[w as int].id@,
        None => "—"@,
    })
    &&& r.open == kind_open(f.alerts@, kind)
}

/// Whether an alert of this kind is open.
pub open spec fn kind_open(alerts: Seq<AlertCount>, kind: Seq<char>) -> bool {
    exists|i: int| 0 <= i < alerts.len() && (#[trigger] alerts[i]).kind@ == kind
}

/// Row of a node.
pub struct FleetRow {
    pub href: String,
    pub class: &'static str,
    /// Memory is above the watermark.
    pub mem_hot: bool,
    /// Readings of the last day.
    pub trend: Option<ResourceTrend>,
}

/// `r` is the row of node `n`.
pub open spec fn fleet_row(r: FleetRow, n: FleetNode) -> bool {
    &&& r.href@ == "/admin/servers/"@ + n.path@
    &&& r.mem_hot == (n.mem_pct matches Some(p) && p > 70)
    &&& r.class == (if r.mem_hot {
        "on-warn"
    } else {
        ""
    })
    &&& r.trend is None <==> n.trend@.len() == 0
    &&& r.trend matches Some(t) ==> {
        &&& t.disk@ == crate::telemetry::disk_readings(n.trend@, 0)
        &&& t.memory@ == crate::telemetry::memory_readings(n.trend@, 0)
        &&& t.log@ == crate::telemetry::log_readings(n.trend@, 0)
        &&& t.samples == n.trend@.len()
    }
}

/// The monitoring page.
pub struct FleetHealth {
    pub total: usize,
    pub up: usize,
    pub tick_minutes: u64,
    pub last_sweep: Option<UtcTime>,
    pub fleet: StatusTile,
    pub alerts: StatusTile,
    pub memory: StatusTile,
    pub disk: StatusTile,
    pub versions: StatusTile,
    pub probes: StatusTile,
    pub open_sub_access: u64,
    pub open_node: u64,
    /// Where memory is tightest and when an alert is raised.
    pub mem_note: String,
    pub disk_note: String,
    /// Nodes that run another version than most.
    pub drifted: Vec<Drifted>,
    pub rows: Vec<FleetRow>,
    pub mem_row: ThresholdRow,
    pub disk_row: ThresholdRow,
    pub log_row: ThresholdRow,
    /// Nodes that are not up.
    pub down: usize,
    pub unreachable_open: bool,
    pub failures: Vec<ProbeFailure>,
}

/// Where a metric is worst and when an alert is raised.
pub open spec fn watermark_note(
    f: FleetFacts,
    w: Option<usize>,
    limit: u64,
    lang: Locale,
) -> Seq<char> {
    (match w {
        Some(w) => f.nodes@[w as int].id@,
        None => "—"@,
    }) + " · "@ + crate::locale::in_language(lang, "alert at", "алерт от")@ + " "@
        + crate::text::dec_text(limit as nat) + "%"@
}

/// The worst percentage in words.
pub open spec fn peak_text(f: FleetFacts, m: Metric, w: Option<usize>) -> Seq<char> {
    match w {
        Some(w) => crate::text::dec_text(metric(f.nodes@[w as int], m)->0 as nat) + "%"@,
        None => "—"@,
    }
}

/// The worst percentage is above the watermark.
pub open spec fn peak_hot(f: FleetFacts, m: Metric, w: Option<usize>) -> bool {
    w matches Some(w) && metric(f.nodes@[w as int], m)->0 > 70
}

/// The six tiles, with the worst nodes for memory and disk.
pub open spec fn fleet_tiles(
    v: FleetHealth,
    f: FleetFacts,
    mem: Option<usize>,
    disk: Option<usize>,
    lang: Locale,
) -> bool {
    let total = f.nodes@.len() as int;
    let up = nodes_up(f.nodes@, total);
    let open = alerts_open(f.alerts@, f.alerts@.len() as int);
    let drifted = drifted_nodes(f, f.versions@.len() as int).len();
    &&& crate::telemetry::tile_of(
        v.fleet,
        crate::locale::in_language(lang, "fleet", "флот"),
        crate::text::dec_text(up as nat) + " / "@ + crate::text::dec_text(total as nat) + " up"@,
        if up == total {
            "var(--green)"@
        } else {
            "var(--red)"@
        },
        up != total,
    )
    &&& crate::telemetry::tile_of(
        v.alerts,
        crate::locale::in_language(lang, "open alerts", "открытых алертов"),
        crate::text::dec_text(open as nat),
        "var(--ink)"@,
        open > 0,
    )
    &&& crate::telemetry::tile_of(
        v.memory,
        crate::locale::in_language(lang, "mem peak", "пик памяти"),
        peak_text(f, Metric::Memory, mem),
        "var(--ink)"@,
        peak_hot(f, Metric::Memory, mem),
    )
    &&& crate::telemetry::tile_of(
        v.disk,
        crate::locale::in_language(lang, "disk peak", "пик диска"),
        peak_text(f, Metric::Disk, disk),
        "var(--ink)"@,
        peak_hot(f, Metric::Disk, disk),
    )
    &&& crate::telemetry::tile_of(
        v.versions,
        crate::locale::in_language(lang, "version drift", "дрейф версий"),
        if drifted == 0 {
            crate::locale::in_language(lang, "in sync", "синхронно")@
        } else {
            crate::text::dec_text(drifted) + " "@ + crate::locale::in_language(
                lang,
                "node(s)",
                "нод",
            )@
        },
        "var(--ink)"@,
        drifted > 0,
    )
    &&& crate::telemetry::tile_of(
        v.probes,
        crate::locale::in_language(lang, "probes 24h", "проб за 24ч"),
        crate::text::dec_text(day_probes(f.nodes@, total) as nat),
        "var(--ink)"@,
        false,
    )
}

/// `v` is the monitoring page at `now`, with the worst nodes for memory, disk
/// and log.
pub open spec fn fleet_view(
    v: FleetHealth,
    f: FleetFacts,
    mem: Option<usize>,
    disk: Option<usize>,
    log: Option<usize>,
    lang: Locale,
    now: UtcTime,
) -> bool {
    let total = f.nodes@.len() as int;
    let open = alerts_open(f.alerts@, f.alerts@.len() as int);
    let sub = sub_access_open(f.alerts@, f.alerts@.len() as int);
    let drifted = drifted_nodes(f, f.versions@.len() as int);
    let failed = failures_at(f.recent_alerts@, now, f.recent_alerts@.len() as int);
    &&& worst_node(f.nodes@, Metric::Memory, mem)
    &&& worst_node(f.nodes@, Metric::Disk, disk)
    &&& worst_node(f.nodes@, Metric::LogMib, log)
    &&& v.total == total
    &&& v.up == nodes_up(f.nodes@, total)
    &&& v.down == total - v.up
    &&& v.tick_minutes == tick_minutes(crate::text::opt_string(f.probe_interval))
    &&& v.last_sweep == newest_probe(f.nodes@, total)
    &&& fleet_tiles(v, f, mem, disk, lang)
    &&& v.open_sub_access == sub
    &&& v.open_node == open - sub
    &&& v.mem_note@ == watermark_note(f, mem, f.thresholds.mem_pct, lang)
    &&& v.disk_note@ == watermark_note(f, disk, f.thresholds.disk_pct, lang)
    &&& v.drifted@.len() == drifted.len()
    &&& forall|i: int|
        0 <= i < drifted.len() ==> (#[trigger] v.drifted@[i]).node == drifted[i].0
            && v.drifted@[i].version@ == drifted[i].1
    &&& v.rows@.len() == total
    &&& forall|i: int| 0 <= i < total ==> fleet_row(#[trigger] v.rows@[i], f.nodes@[i])
    &&& threshold_row(v.mem_row, f, Metric::Memory, mem, 70, "%"@, "server.mem.pressure"@)
    &&& threshold_row(v.disk_row, f, Metric::Disk, disk, 70, "%"@, "server.disk.pressure"@)
    &&& threshold_row(
        v.log_row,
        f,
        Metric::LogMib,
        log,
        500,
        Seq::empty(),
        "server.singbox.log.too_big"@,
    )
    &&& v.unreachable_open == kind_open(f.alerts@, "server.unreachable"@)
    &&& v.failures@.len() == failed.len()
    &&& forall|i: int|
        0 <= i < failed.len() ==> failure_of(
            #[trigger] v.failures@[i],
            failed[i],
            f.recent_alerts@,
        )
}

/// `v` is the monitoring page at `now`.
pub open spec fn fleet_health(v: FleetHealth, f: FleetFacts, lang: Locale, now: UtcTime) -> bool {
    exists|mem: Option<usize>, disk: Option<usize>, log: Option<usize>| #[trigger]
        fleet_view(v, f, mem, disk, log, lang, now)
}

proof fn lemma_open_bounds(alerts: Seq<AlertCount>, n: int)
    requires
        0 <= n <= alerts.len(),
    ensures
        0 <= sub_access_open(alerts, n) <= alerts_open(alerts, n) <= alerts_open(
            alerts,
            alerts.len() as int,
        ),
    decreases alerts.len() - n,
{
    lemma_sub_within(alerts, n);
    if n < alerts.len() {
        lemma_open_bounds(alerts, n + 1);
        lemma_sub_within(alerts, n + 1);
    }
}

proof fn lemma_sub_within(alerts: Seq<AlertCount>, n: int)
    ensures
        0 <= sub_access_open(alerts, n) <= alerts_open(alerts, n),
    decreases n,
{
    if n > 0 {
        lemma_sub_within(alerts, n - 1);
    }
}

proof fn lemma_probes_grow(nodes: Seq<FleetNode>, n: int)
    requires
        0 <= n <= nodes.len(),
    ensures
        day_probes(nodes, n) <= day_probes(nodes, nodes.len() as int),
    decreases nodes.len() - n,
{
    if n < nodes.len() {
        lemma_probes_grow(nodes, n + 1);
    }
}

/// Whether the sums of the page fit in 64 bits.
pub fn fleet_sums_fit(f: &FleetFacts) -> (r: bool)
    ensures
        r == sums_fit(*f),
{
    let mut open: u64 = 0;
    let mut i: usize = 0;
    while i < f.alerts.len()
        invariant
            i <= f.alerts.len(),
            open == alerts_open(f.alerts@, i as int),
        decreases f.alerts.len() - i,
    {
        proof {
            lemma_open_bounds(f.alerts@, i + 1);
        }
        match open.checked_add(f.alerts[i].count) {
            Some(n) => {
                open = n;
            },
            None => {
                return false;
            },
        }
        i = i + 1;
    }
    let mut probes: u64 = 0;
    let mut i: usize = 0;
    while i < f.nodes.len()
        invariant
            i <= f.nodes.len(),
            probes == day_probes(f.nodes@, i as int),
        decreases f.nodes.len() - i,
    {
        proof {
            lemma_probes_grow(f.nodes@, i + 1);
        }
        let rows: u64 = match &f.nodes[i].uptime_24h {
            Some(u) => u.total_rows,
            None => 0,
        };
        match probes.checked_add(rows) {
            Some(n) => {
                probes = n;
            },
            None => {
                return false;
            },
        }
        i = i + 1;
    }
    true
}

fn metric_of(n: &FleetNode, m: Metric) -> (r: Option<u64>)
    ensures
        r == metric(*n, m),
{
    match m {
        Metric::Memory => match n.mem_pct {
            Some(p) => Some(p as u64),
            None => None,
        },
        Metric::Disk => match n.disk_pct {
            Some(p) => Some(p as u64),
            None => None,
        },
        Metric::LogMib => match &n.latest {
            Some(h) => match h.sing_box_log_bytes {
                Some(b) => Some(b / 1_048_576),
                None => None,
            },
            None => None,
        },
    }
}

fn find_worst(nodes: &Vec<FleetNode>, m: Metric) -> (r: Option<usize>)
    ensures
        worst_node(nodes@, m, r),
{
    let mut worst: Option<usize> = None;
    let mut most: u64 = 0;
    let mut i: usize = 0;
    while i < nodes.len()
        invariant
            i <= nodes.len(),
            match worst {
                None => forall|j: int|
                    0 <= j < i ==> metric(#[trigger] nodes@[j], m) is None,
                Some(w) => {
                    &&& w < i
                    &&& metric(nodes@[w as int], m) == Some(most)
                    &&& forall|j: int|
                        0 <= j < i && metric(#[trigger] nodes@[j], m) is Some ==> metric(
                            nodes@[j],
                            m,
                        )->0 <= most
                    &&& forall|j: int|
                        w < j < i && metric(#[trigger] nodes@[j], m) is Some ==> metric(
                            nodes@[j],
                            m,
                        )->0 < most
                },
            },
        decreases nodes.len() - i,
    {
        match metric_of(&nodes[i], m) {
            Some(v) => {
                if worst.is_none() || v >= most {
                    worst = Some(i);
                    most = v;
                }
            },
            None => {},
        }
        i = i + 1;
    }
    worst
}

fn is_up(n: &FleetNode) -> (r: bool)
    ensures
        r == node_up(*n),
{
    match &n.latest {
        Some(h) => match h.sing_box_active {
            Some(b) => b,
            None => false,
        },
        None => false,
    }
}

fn find_node(nodes: &Vec<FleetNode>, id: &str) -> (r: Option<usize>)
    ensures
        match r {
            Some(i) => node_at(nodes@, id@, 0) == Some(i as int),
            None => node_at(nodes@, id@, 0) is None,
        },
{
    let mut i: usize = 0;
    while i < nodes.len()
        invariant
            i <= nodes.len(),
            node_at(nodes@, id@, 0) == node_at(nodes@, id@, i as int),
        decreases nodes.len() - i,
    {
        if same(nodes[i].id.as_str(), id) {
            return Some(i);
        }
        i = i + 1;
    }
    None
}

fn find_drifted(f: &FleetFacts) -> (r: Vec<Drifted>)
    ensures
        r@.len() == drifted_nodes(*f, f.versions@.len() as int).len(),
        forall|i: int|
            0 <= i < r@.len() ==> (#[trigger] r@[i]).node == drifted_nodes(
                *f,
                f.versions@.len() as int,
            )[i].0 && r@[i].version@ == drifted_nodes(*f, f.versions@.len() as int)[i].1,
{
    let mut r: Vec<Drifted> = Vec::new();
    let mut i: usize = 0;
    while i < f.versions.len()
        invariant
            i <= f.versions.len(),
            r@.len() == drifted_nodes(*f, i as int).len(),
            forall|j: int|
                0 <= j < r@.len() ==> (#[trigger] r@[j]).node == drifted_nodes(*f, i as int)[j].0
                    && r@[j].version@ == drifted_nodes(*f, i as int)[j].1,
        decreases f.versions.len() - i,
    {
        match &f.versions[i].version {
            Some(v) => {
                let agrees = match &f.majority {
                    Some(m) => same(m.as_str(), v.as_str()),
                    None => false,
                };
                match find_node(&f.nodes, f.versions[i].server_id.as_str()) {
                    Some(node) => {
                        if !agrees {
                            r.push(Drifted { node, version: v.clone() });
                        }
                    },
                    None => {},
                }
            },
            None => {},
        }
        i = i + 1;
    }
    r
}

fn has_open(alerts: &Vec<AlertCount>, kind: &str) -> (r: bool)
    ensures
        r == kind_open(alerts@, kind@),
{
    let mut i: usize = 0;
    while i < alerts.len()
        invariant
            i <= alerts.len(),
            forall|j: int| 0 <= j < i ==> (#[trigger] alerts@[j]).kind@ != kind@,
        decreases alerts.len() - i,
    {
        if same(alerts[i].kind.as_str(), kind) {
            return true;
        }
        i = i + 1;
    }
    false
}

fn build_threshold(
    f: &FleetFacts,
    m: Metric,
    w: Option<usize>,
    limit: u64,
    unit: &str,
    kind: &str,
) -> (r: ThresholdRow)
    requires
        worst_node(f.nodes@, m, w),
    ensures
        threshold_row(r, *f, m, w, limit as int, unit@, kind@),
{
    let open = has_open(&f.alerts, kind);
    match w {
        Some(w) => {
            let value: u64 = match metric_of(&f.nodes[w], m) {
                Some(v) => v,
                None => 0,
            };
            let text = dec(value);
            ThresholdRow {
                class: if value > limit {
                    "num warn"
                } else {
                    "num"
                },
                value: cat2(text.as_str(), unit),
                place: f.nodes[w].id.clone(),
                open,
            }
        },
        None => ThresholdRow {
            class: "num",
            value: "—".to_owned(),
            place: "—".to_owned(),
            open,
        },
    }
}

fn build_note(f: &FleetFacts, w: Option<usize>, limit: u64, lang: Locale) -> (r: String)
    requires
        w matches Some(w) ==> w < f.nodes@.len(),
    ensures
        r@ == watermark_note(*f, w, limit, lang),
{
    let place = match w {
        Some(w) => f.nodes[w].id.as_str(),
        None => "—",
    };
    let pct = dec(limit);
    let head = cat5(place, " · ", tr(lang, "alert at", "алерт от"), " ", pct.as_str());
    cat2(head.as_str(), "%")
}

fn build_failures(alerts: &Vec<AdminAlert>, now: &UtcTime) -> (r: Vec<ProbeFailure>)
    ensures
        r@.len() == failures_at(alerts@, *now, alerts@.len() as int).len(),
        forall|i: int|
            0 <= i < r@.len() ==> failure_of(
                #[trigger] r@[i],
                failures_at(alerts@, *now, alerts@.len() as int)[i],
                alerts@,
            ),
{
    let mut r: Vec<ProbeFailure> = Vec::new();
    let mut i: usize = 0;
    while i < alerts.len()
        invariant
            i <= alerts.len(),
            r@.len() == failures_at(alerts@, *now, i as int).len(),
            forall|j: int|
                0 <= j < r@.len() ==> failure_of(
                    #[trigger] r@[j],
                    failures_at(alerts@, *now, i as int)[j],
                    alerts@,
                ),
        decreases alerts.len() - i,
    {
        let a = &alerts[i];
        let age: i64 = now.seconds_since(&a.created_at);
        if starts_with(a.kind.as_str(), "server.unreachable") && age < 604_800 {
            r.push(
                ProbeFailure {
                    at: i,
                    when: format_at(a.created_at.secs(), 0, "%m-%d %H:%M"),
                    acked: a.acked,
                },
            );
        }
        i = i + 1;
    }
    r
}

fn build_rows(nodes: &Vec<FleetNode>) -> (r: Vec<FleetRow>)
    ensures
        r@.len() == nodes@.len(),
        forall|i: int| 0 <= i < r@.len() ==> fleet_row(#[trigger] r@[i], nodes@[i]),
{
    let mut r: Vec<FleetRow> = Vec::new();
    let mut i: usize = 0;
    while i < nodes.len()
        invariant
            i <= nodes.len(),
            r@.len() == i,
            forall|j: int| 0 <= j < i ==> fleet_row(#[trigger] r@[j], nodes@[j]),
        decreases nodes.len() - i,
    {
        let n = &nodes[i];
        let mem_hot = match n.mem_pct {
            Some(p) => p > 70,
            None => false,
        };
        r.push(
            FleetRow {
                href: cat2("/admin/servers/", n.path.as_str()),
                class: if mem_hot {
                    "on-warn"
                } else {
                    ""
                },
                mem_hot,
                trend: server_detail_resource_trend_section(&n.trend),
            },
        );
        i = i + 1;
    }
    r
}

fn probe_minutes(raw: &Option<String>) -> (r: u64)
    ensures
        r == tick_minutes(crate::text::opt_string(*raw)),
{
    match raw {
        Some(s) => match parse_u64(s.as_str()) {
            Some(n) => n / 60,
            None => 10,
        },
        None => 10,
    }
}

fn peak(f: &FleetFacts, m: Metric, w: Option<usize>) -> (r: (String, bool))
    requires
        worst_node(f.nodes@, m, w),
    ensures
        r.0@ == peak_text(*f, m, w),
        r.1 == peak_hot(*f, m, w),
{
    match w {
        Some(w) => {
            let value: u64 = match metric_of(&f.nodes[w], m) {
                Some(v) => v,
                None => 0,
            };
            let text = dec(value);
            (cat2(text.as_str(), "%"), value > 70)
        },
        None => ("—".to_owned(), false),
    }
}

/// The monitoring page at `now`.
pub fn monitoring_at(f: &FleetFacts, lang: Locale, now: UtcTime) -> (r: FleetHealth)
    requires
        sums_fit(*f),
    ensures
        fleet_health(r, *f, lang, now),
{
    let total: usize = f.nodes.len();
    let mut up: usize = 0;
    let mut probes: u64 = 0;
    let mut last_sweep: Option<UtcTime> = None;
    let mut i: usize = 0;
    while i < total
        invariant
            i <= total,
            total == f.nodes@.len(),
            sums_fit(*f),
            up <= i,
            up == nodes_up(f.nodes@, i as int),
            probes == day_probes(f.nodes@, i as int),
            last_sweep == newest_probe(f.nodes@, i as int),
        decreases total - i,
    {
        proof {
            lemma_probes_grow(f.nodes@, i + 1);
        }
        let n = &f.nodes[i];
        if is_up(n) {
            up = up + 1;
        }
        match &n.uptime_24h {
            Some(u) => {
                probes = probes + u.total_rows;
            },
            None => {},
        }
        match &n.latest {
            Some(h) => {
                last_sweep = match last_sweep {
                    Some(t) => if t.after(&h.ts) {
                        Some(t)
                    } else {
                        Some(h.ts)
                    },
                    None => Some(h.ts),
                };
            },
            None => {},
        }
        i = i + 1;
    }
    let mut open: u64 = 0;
    let mut sub: u64 = 0;
    let mut i: usize = 0;
    while i < f.alerts.len()
        invariant
            i <= f.alerts.len(),
            sums_fit(*f),
            open == alerts_open(f.alerts@, i as int),
            sub == sub_access_open(f.alerts@, i as int),
        decreases f.alerts.len() - i,
    {
        proof {
            lemma_open_bounds(f.alerts@, i + 1);
        }
        let a = &f.alerts[i];
        open = open + a.count;
        if starts_with(a.kind.as_str(), "sub_access.") {
            sub = sub + a.count;
        }
        i = i + 1;
    }
    proof {
        lemma_open_bounds(f.alerts@, f.alerts@.len() as int);
    }
    let mem = find_worst(&f.nodes, Metric::Memory);
    let disk = find_worst(&f.nodes, Metric::Disk);
    let log = find_worst(&f.nodes, Metric::LogMib);
    let drifted = find_drifted(f);
    let up_text = dec(up as u64);
    let total_text = dec(total as u64);
    let fleet_text = cat4(up_text.as_str(), " / ", total_text.as_str(), " up");
    let open_text = dec(open);
    let (mem_text, mem_hot) = peak(f, Metric::Memory, mem);
    let (disk_text, disk_hot) = peak(f, Metric::Disk, disk);
    let drift_text = if drifted.len() == 0 {
        tr(lang, "in sync", "синхронно").to_owned()
    } else {
        let n = dec(drifted.len() as u64);
        cat3(n.as_str(), " ", tr(lang, "node(s)", "нод"))
    };
    let probes_text = dec(probes);
    let r = FleetHealth {
        total,
        up,
        tick_minutes: probe_minutes(&f.probe_interval),
        last_sweep,
        fleet: status_tile_with_warn(
            tr(lang, "fleet", "флот"),
            fleet_text.as_str(),
            if up == total {
                "var(--green)"
            } else {
                "var(--red)"
            },
            up != total,
        ),
        alerts: status_tile_with_warn(
            tr(lang, "open alerts", "открытых алертов"),
            open_text.as_str(),
            "var(--ink)",
            open > 0,
        ),
        memory: status_tile_with_warn(
            tr(lang, "mem peak", "пик памяти"),
            mem_text.as_str(),
            "var(--ink)",
            mem_hot,
        ),
        disk: status_tile_with_warn(
            tr(lang, "disk peak", "пик диска"),
            disk_text.as_str(),
            "var(--ink)",
            disk_hot,
        ),
        versions: status_tile_with_warn(
            tr(lang, "version drift", "дрейф версий"),
            drift_text.as_str(),
            "var(--ink)",
            drifted.len() > 0,
        ),
        probes: status_tile_with_warn(
            tr(lang, "probes 24h", "проб за 24ч"),
            probes_text.as_str(),
            "var(--ink)",
            false,
        ),
        open_sub_access: sub,
        open_node: open - sub,
        mem_note: build_note(f, mem, f.thresholds.mem_pct, lang),
        disk_note: build_note(f, disk, f.thresholds.disk_pct, lang),
        drifted,
        rows: build_rows(&f.nodes),
        mem_row: build_threshold(f, Metric::Memory, mem, 70, "%", "server.mem.pressure"),
        disk_row: build_threshold(f, Metric::Disk, disk, 70, "%", "server.disk.pressure"),
        log_row: build_threshold(
            f,
            Metric::LogMib,
            log,
            500,
            "",
            "server.singbox.log.too_big",
        ),
        down: total - up,
        unreachable_open: has_open(&f.alerts, "server.unreachable"),
        failures: build_failures(&f.recent_alerts, &now),
    };
    proof {
        reveal_strlit("");
        assert(""@ =~= Seq::<char>::empty());
        assert(fleet_tiles(r, *f, mem, disk, lang));
        assert(fleet_view(r, *f, mem, disk, log, lang, now));
    }
    r
}

/// The monitoring page at the current instant.
pub fn monitoring(f: &FleetFacts, lang: Locale) -> (r: FleetHealth)
    requires
        sums_fit(*f),
    ensures
        exists|now: UtcTime|
            0 <= now.seconds() && #[trigger] fleet_health(r, *f, lang, now),
{
    let now = utc_now();
    monitoring_at(f, lang, now)
}

} // verus!
