//! Laws of the monitoring page.
use crate::fleet::{AdminAlert, AlertCount, FleetFacts, FleetHealth, FleetNode, Metric};
use crate::locale::Locale;
use crate::time::UtcTime;
use vstd::prelude::*;

verus! {

/// The latest probe of the node found its service running.
pub open spec fn running(n: FleetNode) -> bool {
    n.latest is Some && n.latest->0.sing_box_active == Some(true)
}

proof fn lemma_up(nodes: Seq<FleetNode>, n: int)
    requires
        0 <= n <= nodes.len(),
    ensures
        crate::fleet::nodes_up(nodes, n) == nodes.take(n).filter(|x: FleetNode| running(x)).len(),
        crate::fleet::nodes_up(nodes, n) <= n,
    decreases n,
{
    reveal(Seq::filter);
    if n > 0 {
        lemma_up(nodes, n - 1);
        assert(nodes.take(n).drop_last() =~= nodes.take(n - 1));
    }
}

/// Every node is up or down: up where the latest probe found its service
/// running. The page warns as soon as one is not up.
pub proof fn nodes_are_up_or_down(v: FleetHealth, f: FleetFacts, lang: Locale, now: UtcTime)
    requires
        crate::fleet::fleet_health(v, f, lang, now),
    ensures
        v.total == f.nodes@.len(),
        v.up == f.nodes@.filter(|x: FleetNode| running(x)).len(),
        v.up + v.down == v.total,
        v.fleet.warn <==> v.down > 0,
        v.fleet.value@ == crate::text::dec_text(v.up as nat) + " / "@ + crate::text::dec_text(
            v.total as nat,
        ) + " up"@,
        v.rows@.len() == v.total,
{
    lemma_up(f.nodes@, f.nodes@.len() as int);
    assert(f.nodes@.take(f.nodes@.len() as int) =~= f.nodes@);
}

/// An open alert belongs to subscription access exactly where its kind begins
/// with `sub_access.`, and to the nodes otherwise; both together are all.
pub proof fn alerts_split_by_kind(v: FleetHealth, f: FleetFacts, lang: Locale, now: UtcTime)
    requires
        crate::fleet::fleet_health(v, f, lang, now),
    ensures
        v.open_sub_access + v.open_node == crate::fleet::alerts_open(
            f.alerts@,
            f.alerts@.len() as int,
        ),
        v.open_sub_access == crate::fleet::sub_access_open(f.alerts@, f.alerts@.len() as int),
        v.alerts.warn <==> v.open_sub_access + v.open_node > 0,
        v.alerts.value@ == crate::text::dec_text((v.open_sub_access + v.open_node) as nat),
{
}

/// One more entry adds its count to all open alerts, and to those on
/// subscription access exactly where its kind begins with `sub_access.`.
pub proof fn alert_counts_add_up(alerts: Seq<AlertCount>, a: AlertCount)
    ensures
        crate::fleet::alerts_open(Seq::empty(), 0) == 0,
        crate::fleet::sub_access_open(Seq::empty(), 0) == 0,
        crate::fleet::alerts_open(alerts.push(a), (alerts.len() + 1) as int) == crate::fleet::alerts_open(
            alerts,
            alerts.len() as int,
        ) + a.count,
        (exists|rest: Seq<char>| a.kind@ == #[trigger] ("sub_access."@ + rest))
            ==> crate::fleet::sub_access_open(alerts.push(a), (alerts.len() + 1) as int)
            == crate::fleet::sub_access_open(alerts, alerts.len() as int) + a.count,
        !(exists|rest: Seq<char>| a.kind@ == #[trigger] ("sub_access."@ + rest))
            ==> crate::fleet::sub_access_open(alerts.push(a), (alerts.len() + 1) as int)
            == crate::fleet::sub_access_open(alerts, alerts.len() as int),
{
    lemma_same_front(alerts, a, alerts.len() as int);
    let p = "sub_access."@;
    let m = alerts.push(a);
    assert(m[alerts.len() as int] == a);
    if exists|rest: Seq<char>| a.kind@ == #[trigger] (p + rest) {
        let rest = choose|rest: Seq<char>| a.kind@ == #[trigger] (p + rest);
        assert(a.kind@.take(p.len() as int) =~= p);
        assert(p.is_prefix_of(a.kind@));
    } else if p.is_prefix_of(a.kind@) {
        assert(a.kind@ =~= p + a.kind@.skip(p.len() as int));
    }
}

proof fn lemma_same_front(alerts: Seq<AlertCount>, a: AlertCount, n: int)
    requires
        0 <= n <= alerts.len(),
    ensures
        crate::fleet::alerts_open(alerts.push(a), n) == crate::fleet::alerts_open(alerts, n),
        crate::fleet::sub_access_open(alerts.push(a), n) == crate::fleet::sub_access_open(
            alerts,
            n,
        ),
    decreases n,
{
    if n > 0 {
        lemma_same_front(alerts, a, n - 1);
    }
}

/// A metric is known where the node reported it: memory and disk in percent,
/// the log in whole MiB.
pub proof fn metrics_of_a_node(n: FleetNode)
    ensures
        crate::fleet::metric(n, Metric::Memory) is Some <==> n.mem_pct is Some,
        n.mem_pct matches Some(p) ==> crate::fleet::metric(n, Metric::Memory)->0 == p,
        crate::fleet::metric(n, Metric::Disk) is Some <==> n.disk_pct is Some,
        n.disk_pct matches Some(p) ==> crate::fleet::metric(n, Metric::Disk)->0 == p,
        crate::fleet::metric(n, Metric::LogMib) is Some <==> n.latest is Some
            && n.latest->0.sing_box_log_bytes is Some,
        crate::fleet::metric(n, Metric::LogMib) matches Some(m) ==> m * 1_048_576
            <= n.latest->0.sing_box_log_bytes->0 < (m + 1) * 1_048_576,
{
}

/// The tiles show the largest known share of memory and of disk, and warn from
/// 71 % on; without a known value they show a dash and do not warn.
pub proof fn peaks_are_the_largest(
    v: FleetHealth,
    f: FleetFacts,
    lang: Locale,
    now: UtcTime,
    i: int,
    p: u8,
)
    requires
        crate::fleet::fleet_health(v, f, lang, now),
        0 <= i < f.nodes@.len(),
    ensures
        f.nodes@[i].mem_pct == Some(p) && (forall|k: int|
            0 <= k < f.nodes@.len() && (#[trigger] f.nodes@[k]).mem_pct is Some
                ==> f.nodes@[k].mem_pct->0 <= p) ==> v.memory.value@ == crate::text::dec_text(
            p as nat,
        ) + "%"@ && (v.memory.warn <==> p > 70) && v.mem_row.value@ == crate::text::dec_text(
            p as nat,
        ) + "%"@,
        f.nodes@[i].disk_pct == Some(p) && (forall|k: int|
            0 <= k < f.nodes@.len() && (#[trigger] f.nodes@[k]).disk_pct is Some
                ==> f.nodes@[k].disk_pct->0 <= p) ==> v.disk.value@ == crate::text::dec_text(
            p as nat,
        ) + "%"@ && (v.disk.warn <==> p > 70) && v.disk_row.value@ == crate::text::dec_text(
            p as nat,
        ) + "%"@,
        (forall|k: int| 0 <= k < f.nodes@.len() ==> (#[trigger] f.nodes@[k]).mem_pct is None)
            ==> v.memory.value@ == "—"@ && !v.memory.warn && v.mem_row.value@ == "—"@
            && v.mem_row.place@ == "—"@,
        (forall|k: int| 0 <= k < f.nodes@.len() ==> (#[trigger] f.nodes@[k]).disk_pct is None)
            ==> v.disk.value@ == "—"@ && !v.disk.warn && v.disk_row.value@ == "—"@
            && v.disk_row.place@ == "—"@,
{
    let (mem, disk, log) = choose|mem: Option<usize>, disk: Option<usize>, log: Option<usize>|
        #[trigger]
        crate::fleet::fleet_view(v, f, mem, disk, log, lang, now);
    assert(f.nodes@[i] == f.nodes@[i]);
    if let Some(w) = mem {
        assert(f.nodes@[w as int].mem_pct is Some);
        assert(crate::fleet::metric(f.nodes@[i], Metric::Memory) is Some
            ==> crate::fleet::metric(f.nodes@[i], Metric::Memory)->0 <= crate::fleet::metric(
            f.nodes@[w as int],
            Metric::Memory,
        )->0);
    } else {
        assert(crate::fleet::metric(f.nodes@[i], Metric::Memory) is None);
    }
    if let Some(w) = disk {
        assert(f.nodes@[w as int].disk_pct is Some);
        assert(crate::fleet::metric(f.nodes@[i], Metric::Disk) is Some
            ==> crate::fleet::metric(f.nodes@[i], Metric::Disk)->0 <= crate::fleet::metric(
            f.nodes@[w as int],
            Metric::Disk,
        )->0);
    } else {
        assert(crate::fleet::metric(f.nodes@[i], Metric::Disk) is None);
    }
}

/// A threshold row names a node where its value is worst, is marked above 70 %
/// or 500 MiB, and is open exactly where an alert of its kind is.
pub proof fn threshold_rows_name_the_worst(
    v: FleetHealth,
    f: FleetFacts,
    lang: Locale,
    now: UtcTime,
)
    requires
        crate::fleet::fleet_health(v, f, lang, now),
    ensures
        v.mem_row.open <==> exists|k: int|
            0 <= k < f.alerts@.len() && (#[trigger] f.alerts@[k]).kind@ == "server.mem.pressure"@,
        v.disk_row.open <==> exists|k: int|
            0 <= k < f.alerts@.len() && (#[trigger] f.alerts@[k]).kind@ == "server.disk.pressure"@,
        v.log_row.open <==> exists|k: int|
            0 <= k < f.alerts@.len() && (#[trigger] f.alerts@[k]).kind@
                == "server.singbox.log.too_big"@,
        v.unreachable_open <==> exists|k: int|
            0 <= k < f.alerts@.len() && (#[trigger] f.alerts@[k]).kind@ == "server.unreachable"@,
        v.mem_row.class == "num warn" ==> exists|k: int|
            0 <= k < f.nodes@.len() && (#[trigger] f.nodes@[k]).mem_pct is Some
                && f.nodes@[k].mem_pct->0 > 70 && f.nodes@[k].id@ == v.mem_row.place@,
        v.disk_row.class == "num warn" ==> exists|k: int|
            0 <= k < f.nodes@.len() && (#[trigger] f.nodes@[k]).disk_pct is Some
                && f.nodes@[k].disk_pct->0 > 70 && f.nodes@[k].id@ == v.disk_row.place@,
        (exists|k: int|
            0 <= k < f.nodes@.len() && (#[trigger] f.nodes@[k]).mem_pct is Some
                && f.nodes@[k].mem_pct->0 > 70) ==> v.mem_row.class == "num warn",
        (exists|k: int|
            0 <= k < f.nodes@.len() && (#[trigger] f.nodes@[k]).disk_pct is Some
                && f.nodes@[k].disk_pct->0 > 70) ==> v.disk_row.class == "num warn",
        (exists|k: int|
            0 <= k < f.nodes@.len() && (#[trigger] f.nodes@[k]).latest is Some
                && f.nodes@[k].latest->0.sing_box_log_bytes is Some
                && f.nodes@[k].latest->0.sing_box_log_bytes->0 >= 501 * 1024 * 1024)
            ==> v.log_row.class == "num warn",
{
    let (mem, disk, log) = choose|mem: Option<usize>, disk: Option<usize>, log: Option<usize>|
        #[trigger]
        crate::fleet::fleet_view(v, f, mem, disk, log, lang, now);
    reveal_strlit("num warn");
    reveal_strlit("num");
    assert("num warn"@.len() == 8);
    assert("num"@.len() == 3);
    if v.mem_row.class == "num warn" {
        let w = mem->0 as int;
        assert(f.nodes@[w].mem_pct is Some);
    }
    if v.disk_row.class == "num warn" {
        let w = disk->0 as int;
        assert(f.nodes@[w].disk_pct is Some);
    }
    if exists|k: int|
        0 <= k < f.nodes@.len() && (#[trigger] f.nodes@[k]).mem_pct is Some && f.nodes@[k].mem_pct->0
            > 70 {
        let k = choose|k: int|
            0 <= k < f.nodes@.len() && (#[trigger] f.nodes@[k]).mem_pct is Some
                && f.nodes@[k].mem_pct->0 > 70;
        assert(crate::fleet::metric(f.nodes@[k], Metric::Memory) is Some);
    }
    if exists|k: int|
        0 <= k < f.nodes@.len() && (#[trigger] f.nodes@[k]).disk_pct is Some
            && f.nodes@[k].disk_pct->0 > 70 {
        let k = choose|k: int|
            0 <= k < f.nodes@.len() && (#[trigger] f.nodes@[k]).disk_pct is Some
                && f.nodes@[k].disk_pct->0 > 70;
        assert(crate::fleet::metric(f.nodes@[k], Metric::Disk) is Some);
    }
    if exists|k: int|
        0 <= k < f.nodes@.len() && (#[trigger] f.nodes@[k]).latest is Some
            && f.nodes@[k].latest->0.sing_box_log_bytes is Some
            && f.nodes@[k].latest->0.sing_box_log_bytes->0 >= 501 * 1024 * 1024 {
        let k = choose|k: int|
            0 <= k < f.nodes@.len() && (#[trigger] f.nodes@[k]).latest is Some
                && f.nodes@[k].latest->0.sing_box_log_bytes is Some
                && f.nodes@[k].latest->0.sing_box_log_bytes->0 >= 501 * 1024 * 1024;
        assert(crate::fleet::metric(f.nodes@[k], Metric::LogMib) is Some);
    }
}

/// The last sweep is the newest of the latest probes.
pub proof fn last_sweep_is_the_newest_probe(nodes: Seq<FleetNode>, n: int)
    requires
        0 <= n <= nodes.len(),
    ensures
        crate::fleet::newest_probe(nodes, n) is None <==> forall|i: int|
            0 <= i < n ==> (#[trigger] nodes[i]).latest is None,
        crate::fleet::newest_probe(nodes, n) matches Some(t) ==> {
            &&& exists|i: int|
                0 <= i < n && (#[trigger] nodes[i]).latest is Some && nodes[i].latest->0.ts == t
            &&& forall|i: int|
                0 <= i < n && (#[trigger] nodes[i]).latest is Some
                    ==> nodes[i].latest->0.ts.stamp() <= t.stamp()
        },
    decreases n,
{
    if n > 0 {
        last_sweep_is_the_newest_probe(nodes, n - 1);
        assert(nodes[n - 1] == nodes[n - 1]);
    }
}

/// Probes are as many minutes apart as the configured seconds hold, ten where
/// nothing readable is configured; the page shows that and the last sweep.
pub proof fn page_shows_the_schedule(
    v: FleetHealth,
    f: FleetFacts,
    lang: Locale,
    now: UtcTime,
    secs: nat,
)
    requires
        crate::fleet::fleet_health(v, f, lang, now),
    ensures
        f.probe_interval is None ==> v.tick_minutes == 10,
        f.probe_interval matches Some(s) ==> (crate::text::parsed_number(s@, u64::MAX as nat)
            is None ==> v.tick_minutes == 10),
        f.probe_interval matches Some(s) ==> (crate::text::parsed_number(s@, u64::MAX as nat)
            == Some(secs) ==> 60 * v.tick_minutes <= secs < 60 * v.tick_minutes + 60),
        v.last_sweep == crate::fleet::newest_probe(f.nodes@, f.nodes@.len() as int),
        v.probes.value@ == crate::text::dec_text(
            crate::fleet::day_probes(f.nodes@, f.nodes@.len() as int) as nat,
        ),
        !v.probes.warn,
{
}

/// Node `i` is the first with this id.
pub open spec fn first_node(nodes: Seq<FleetNode>, id: Seq<char>, i: int) -> bool {
    &&& 0 <= i < nodes.len()
    &&& nodes[i].id@ == id
    &&& forall|j: int| 0 <= j < i ==> (#[trigger] nodes[j]).id@ != id
}

proof fn lemma_node_at(nodes: Seq<FleetNode>, id: Seq<char>, from: int)
    requires
        0 <= from <= nodes.len(),
        forall|j: int| 0 <= j < from ==> (#[trigger] nodes[j]).id@ != id,
    ensures
        forall|i: int|
            crate::fleet::node_at(nodes, id, from) == Some(i) <==> #[trigger] first_node(
                nodes,
                id,
                i,
            ),
    decreases nodes.len() - from,
{
    if from < nodes.len() {
        if nodes[from].id@ == id {
            assert(first_node(nodes, id, from));
            assert forall|i: int| #[trigger] first_node(nodes, id, i) implies i == from by {
                if i > from {
                    assert(nodes[from].id@ != id);
                }
            }
        } else {
            lemma_node_at(nodes, id, from + 1);
        }
    }
}

/// A report of another version than the majority's on a known node.
pub open spec fn reports_drift(f: FleetFacts, r: int, node: int, version: Seq<char>) -> bool {
    &&& f.versions@[r].version is Some
    &&& f.versions@[r].version->0@ == version
    &&& !(f.majority is Some && f.majority->0@ == version)
    &&& first_node(f.nodes@, f.versions@[r].server_id@, node)
}

proof fn lemma_drifted(f: FleetFacts, n: int, node: int, version: Seq<char>)
    requires
        0 <= n <= f.versions@.len(),
    ensures
        crate::fleet::drifted_nodes(f, n).contains((node, version)) <==> exists|r: int|
            0 <= r < n && #[trigger] reports_drift(f, r, node, version),
    decreases n,
{
    if n > 0 {
        let here = crate::fleet::drifted_nodes(f, n);
        let before = crate::fleet::drifted_nodes(f, n - 1);
        lemma_drifted(f, n - 1, node, version);
        lemma_node_at(f.nodes@, f.versions@[n - 1].server_id@, 0);
        if before.contains((node, version)) {
            let k = before.index_of((node, version));
            assert(here[k] == (node, version));
        }
        if here.contains((node, version)) {
            let k = here.index_of((node, version));
            if k < before.len() {
                assert(before[k] == (node, version));
            } else {
                assert(first_node(f.nodes@, f.versions@[n - 1].server_id@, node));
                assert(reports_drift(f, n - 1, node, version));
            }
        }
        if reports_drift(f, n - 1, node, version) {
            assert(here[here.len() - 1] == (node, version));
        }
    }
}

/// A node is listed as drifted exactly where it reported a version that is not
/// the majority's, and the tile warns as soon as one is.
pub proof fn drifted_nodes_differ_from_the_majority(
    v: FleetHealth,
    f: FleetFacts,
    lang: Locale,
    now: UtcTime,
    node: usize,
    version: Seq<char>,
)
    requires
        crate::fleet::fleet_health(v, f, lang, now),
    ensures
        (exists|k: int|
            0 <= k < v.drifted@.len() && (#[trigger] v.drifted@[k]).node == node
                && v.drifted@[k].version@ == version) <==> exists|r: int|
            0 <= r < f.versions@.len() && #[trigger] reports_drift(f, r, node as int, version),
        v.versions.warn <==> v.drifted@.len() > 0,
        v.drifted@.len() == 0 && lang is En ==> v.versions.value@ == "in sync"@,
        v.drifted@.len() > 0 && lang is En ==> v.versions.value@ == crate::text::dec_text(
            v.drifted@.len(),
        ) + " "@ + "node(s)"@,
{
    let n = f.versions@.len() as int;
    let all = crate::fleet::drifted_nodes(f, n);
    lemma_drifted(f, n, node as int, version);
    if exists|k: int|
        0 <= k < v.drifted@.len() && (#[trigger] v.drifted@[k]).node == node
            && v.drifted@[k].version@ == version {
        let k = choose|k: int|
            0 <= k < v.drifted@.len() && (#[trigger] v.drifted@[k]).node == node
                && v.drifted@[k].version@ == version;
        assert(all[k] == (node as int, version));
        assert(all.contains((node as int, version)));
    }
    if all.contains((node as int, version)) {
        let k = all.index_of((node as int, version));
        assert(v.drifted@[k].node == node);
    }
}

/// A failed probe less than seven days old.
pub open spec fn failed_lately(a: AdminAlert, now: UtcTime) -> bool {
    &&& exists|rest: Seq<char>| a.kind@ == #[trigger] ("server.unreachable"@ + rest)
    &&& now.stamp() - a.created_at.stamp() < 7 * 24 * 3600 * 1_000_000_000
}

proof fn lemma_failure(a: AdminAlert, now: UtcTime)
    ensures
        crate::fleet::recent_failure(a, now) <==> failed_lately(a, now),
{
    let p = "server.unreachable"@;
    if p.is_prefix_of(a.kind@) {
        assert(a.kind@ =~= p + a.kind@.skip(p.len() as int));
    }
    if exists|rest: Seq<char>| a.kind@ == #[trigger] (p + rest) {
        assert(a.kind@.take(p.len() as int) =~= p);
        assert(p.is_prefix_of(a.kind@));
    }
}

proof fn lemma_failures(alerts: Seq<AdminAlert>, now: UtcTime, n: int)
    requires
        0 <= n <= alerts.len(),
    ensures
        forall|i: int|
            #![trigger alerts[i]]
            #![trigger crate::fleet::failures_at(alerts, now, n).contains(i)]
            crate::fleet::failures_at(alerts, now, n).contains(i) <==> (0 <= i < n && failed_lately(
                alerts[i],
                now,
            )),
        forall|j: int, k: int|
            0 <= j < k < crate::fleet::failures_at(alerts, now, n).len()
                ==> #[trigger] crate::fleet::failures_at(alerts, now, n)[j]
                < #[trigger] crate::fleet::failures_at(alerts, now, n)[k],
    decreases n,
{
    let here = crate::fleet::failures_at(alerts, now, n);
    if n > 0 {
        let before = crate::fleet::failures_at(alerts, now, n - 1);
        lemma_failures(alerts, now, n - 1);
        lemma_failure(alerts[n - 1], now);
        assert forall|i: int|
            #![trigger alerts[i]]
            #![trigger here.contains(i)]
            here.contains(i) <==> (0 <= i < n && failed_lately(alerts[i], now)) by {
            if here.contains(i) {
                let k = here.index_of(i);
                if k < before.len() {
                    assert(before[k] == i);
                    assert(before.contains(i));
                }
            }
            if before.contains(i) {
                let k = before.index_of(i);
                assert(here[k] == i);
            }
            if i == n - 1 && failed_lately(alerts[i], now) {
                assert(here[here.len() - 1] == i);
            }
        }
        assert forall|j: int, k: int| 0 <= j < k < here.len() implies #[trigger] here[j]
            < #[trigger] here[k] by {
            assert(before.contains(before[j]));
        }
    }
}

/// An alert is listed as a failed probe exactly where its kind begins with
/// `server.unreachable` and it is less than seven days old, in the order of the
/// alerts, with its own time and state.
pub proof fn failures_of_the_last_week(
    v: FleetHealth,
    f: FleetFacts,
    lang: Locale,
    now: UtcTime,
    at: usize,
    k: int,
)
    requires
        crate::fleet::fleet_health(v, f, lang, now),
    ensures
        (exists|k: int| 0 <= k < v.failures@.len() && (#[trigger] v.failures@[k]).at == at) <==> at
            < f.recent_alerts@.len() && failed_lately(f.recent_alerts@[at as int], now),
        forall|j: int, k: int|
            0 <= j < k < v.failures@.len() ==> (#[trigger] v.failures@[j]).at
                < (#[trigger] v.failures@[k]).at,
        0 <= k < v.failures@.len() ==> v.failures@[k].at < f.recent_alerts@.len()
            && v.failures@[k].acked == f.recent_alerts@[v.failures@[k].at as int].acked
            && v.failures@[k].when@ == crate::time::calendar_text(
            f.recent_alerts@[v.failures@[k].at as int].created_at.seconds(),
            0,
            "%m-%d %H:%M"@,
        ),
{
    let alerts = f.recent_alerts@;
    let all = crate::fleet::failures_at(alerts, now, alerts.len() as int);
    lemma_failures(alerts, now, alerts.len() as int);
    assert forall|k: int| 0 <= k < v.failures@.len() implies (#[trigger] v.failures@[k]).at == all[k]
        && all.contains(all[k]) by {
        assert(crate::fleet::failure_of(v.failures@[k], all[k], alerts));
    }
    if 0 <= k < v.failures@.len() {
        assert(crate::fleet::failure_of(v.failures@[k], all[k], alerts));
        assert(v.failures@[k].at == all[k]);
    }
    if at < alerts.len() && failed_lately(alerts[at as int], now) {
        assert(all.contains(at as int));
        let k = all.index_of(at as int);
        assert(v.failures@[k].at == at);
    }
}

/// The row of a node leads to it, is marked above 70 % of memory, and shows its
/// readings.
pub proof fn node_row_shows_its_node(
    v: FleetHealth,
    f: FleetFacts,
    lang: Locale,
    now: UtcTime,
    i: int,
)
    requires
        crate::fleet::fleet_health(v, f, lang, now),
        0 <= i < f.nodes@.len(),
    ensures
        v.rows@[i].href@ == "/admin/servers/"@ + f.nodes@[i].path@,
        v.rows@[i].mem_hot <==> f.nodes@[i].mem_pct is Some && f.nodes@[i].mem_pct->0 >= 71,
        v.rows@[i].class@ == "on-warn"@ <==> v.rows@[i].mem_hot,
        v.rows@[i].trend is Some <==> f.nodes@[i].trend@.len() > 0,
        v.rows@[i].trend matches Some(t) ==> t.samples == f.nodes@[i].trend@.len() && t.disk@
            == crate::telemetry::disk_readings(f.nodes@[i].trend@, 0) && t.memory@
            == crate::telemetry::memory_readings(f.nodes@[i].trend@, 0) && t.log@
            == crate::telemetry::log_readings(f.nodes@[i].trend@, 0),
{
    assert(crate::fleet::fleet_row(v.rows@[i], f.nodes@[i]));
    reveal_strlit("on-warn");
    reveal_strlit("");
    assert("on-warn"@.len() == 7 && ""@.len() == 0);
}

/// The probes of the day add up over the nodes; a node without a record counts
/// none.
pub proof fn probes_add_up(nodes: Seq<FleetNode>, n: int)
    requires
        0 <= n < nodes.len(),
    ensures
        crate::fleet::day_probes(nodes, 0) == 0,
        nodes[n].uptime_24h is None ==> crate::fleet::day_probes(nodes, n + 1)
            == crate::fleet::day_probes(nodes, n),
        nodes[n].uptime_24h matches Some(u) ==> crate::fleet::day_probes(nodes, n + 1)
            == crate::fleet::day_probes(nodes, n) + u.total_rows,
{
}

/// Of the nodes that are worst, the last in the list is named, in the rows and
/// in the notes, and the notes give the limits at which an alert is raised.
pub proof fn last_of_the_worst_is_named(
    v: FleetHealth,
    f: FleetFacts,
    lang: Locale,
    now: UtcTime,
    i: int,
)
    requires
        crate::fleet::fleet_health(v, f, lang, now),
        0 <= i < f.nodes@.len(),
    ensures
        f.nodes@[i].mem_pct is Some && (forall|k: int|
            0 <= k < f.nodes@.len() && k != i && (#[trigger] f.nodes@[k]).mem_pct is Some ==> (k < i
                ==> f.nodes@[k].mem_pct->0 <= f.nodes@[i].mem_pct->0) && (k > i
                ==> f.nodes@[k].mem_pct->0 < f.nodes@[i].mem_pct->0)) ==> v.mem_row.place@
            == f.nodes@[i].id@ && (lang is En ==> v.mem_note@ == f.nodes@[i].id@ + " · "@
            + "alert at"@ + " "@ + crate::text::dec_text(f.thresholds.mem_pct as nat) + "%"@),
        f.nodes@[i].disk_pct is Some && (forall|k: int|
            0 <= k < f.nodes@.len() && k != i && (#[trigger] f.nodes@[k]).disk_pct is Some ==> (k
                < i ==> f.nodes@[k].disk_pct->0 <= f.nodes@[i].disk_pct->0) && (k > i
                ==> f.nodes@[k].disk_pct->0 < f.nodes@[i].disk_pct->0)) ==> v.disk_row.place@
            == f.nodes@[i].id@ && (lang is En ==> v.disk_note@ == f.nodes@[i].id@ + " · "@
            + "alert at"@ + " "@ + crate::text::dec_text(f.thresholds.disk_pct as nat) + "%"@),
{
    let (mem, disk, log) = choose|mem: Option<usize>, disk: Option<usize>, log: Option<usize>|
        #[trigger]
        crate::fleet::fleet_view(v, f, mem, disk, log, lang, now);
    assert(f.nodes@[i] == f.nodes@[i]);
    if f.nodes@[i].mem_pct is Some {
        assert(crate::fleet::metric(f.nodes@[i], Metric::Memory) is Some);
        assert(mem is Some);
        let w = mem->0 as int;
        assert(f.nodes@[w].mem_pct is Some);
    }
    if f.nodes@[i].disk_pct is Some {
        assert(crate::fleet::metric(f.nodes@[i], Metric::Disk) is Some);
        assert(disk is Some);
        let w = disk->0 as int;
        assert(f.nodes@[w].disk_pct is Some);
    }
}

/// The log row shows the largest log in whole MiB, and names the last node that
/// has it.
pub proof fn largest_log_is_shown(
    v: FleetHealth,
    f: FleetFacts,
    lang: Locale,
    now: UtcTime,
    i: int,
    mib: u64,
)
    requires
        crate::fleet::fleet_health(v, f, lang, now),
        0 <= i < f.nodes@.len(),
        crate::fleet::metric(f.nodes@[i], Metric::LogMib) == Some(mib),
        forall|k: int|
            0 <= k < f.nodes@.len() && crate::fleet::metric(#[trigger] f.nodes@[k], Metric::LogMib)
                is Some ==> crate::fleet::metric(f.nodes@[k], Metric::LogMib)->0 <= mib && (k > i
                ==> crate::fleet::metric(f.nodes@[k], Metric::LogMib)->0 < mib),
    ensures
        v.log_row.value@ == crate::text::dec_text(mib as nat),
        v.log_row.place@ == f.nodes@[i].id@,
        v.log_row.class@ == "num warn"@ <==> mib > 500,
{
    let (mem, disk, log) = choose|mem: Option<usize>, disk: Option<usize>, log: Option<usize>|
        #[trigger]
        crate::fleet::fleet_view(v, f, mem, disk, log, lang, now);
    assert(log is Some);
    let w = log->0 as int;
    assert(crate::fleet::metric(f.nodes@[w], Metric::LogMib) is Some);
    let t = crate::text::dec_text(mib as nat);
    assert(t + Seq::<char>::empty() =~= t);
    reveal_strlit("num warn");
    reveal_strlit("num");
    assert("num warn"@.len() == 8 && "num"@.len() == 3);
}

/// The tiles are labelled in the language of the page, and the fleet tile is
/// green exactly where every node is up.
pub proof fn tiles_of_the_fleet(v: FleetHealth, f: FleetFacts, lang: Locale, now: UtcTime)
    requires
        crate::fleet::fleet_health(v, f, lang, now),
    ensures
        lang is En ==> v.fleet.label == "fleet" && v.alerts.label == "open alerts" && v.memory.label
            == "mem peak" && v.disk.label == "disk peak" && v.versions.label == "version drift"
            && v.probes.label == "probes 24h",
        v.down == 0 ==> v.fleet.style@ == "color: "@ + "var(--green)"@ + ";"@,
        v.down > 0 ==> v.fleet.style@ == "color: "@ + "var(--red)"@ + ";"@,
        lang is Ru && v.drifted@.len() == 0 ==> v.versions.value@ == "синхронно"@,
{
    lemma_up(f.nodes@, f.nodes@.len() as int);
}

} // verus!
