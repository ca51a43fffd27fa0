use vpnctl_admin::activity::{
    bootstrap_record, last_deploy, server_detail_gap_section, server_detail_live_activity_section,
    server_detail_live_connections_section, server_detail_traffic_section,
    server_detail_traffic_section_at, AuditEntry, FetchHits, GapSection, LikelyUser,
    LiveConnections, SourceFetches, TrafficBreakdown,
};
use vpnctl_admin::drift::{
    compute_orphan_uuids, drift_of_labels, drift_of_probe, expected_ports_for_protocol,
    load_drift_live, server_detail_drift_detail_section, server_detail_drift_section,
    server_detail_drift_summary, ConfigRead, DeclaredProtocol, DriftDetail, DriftLiveResult,
    DriftSection, DriftSummary,
};
use vpnctl_admin::locale::Locale;
use vpnctl_admin::ports::{parse_port_label, port_label, sorted_ports, Port};
use vpnctl_admin::presence::LiveConnection;
use vpnctl_admin::share_links::RenderUser;
use vpnctl_admin::telemetry::{
    server_detail_hero, server_detail_resource_trend_section, server_detail_uptime_section,
    server_detail_uptime_section_at, status_tile, status_tile_with_warn, NodeHealth, UptimeStat,
    LOG_ALERT_BYTES,
};
use vpnctl_admin::time::UtcTime;
use vpnctl_admin::traffic::{pick_vpn_sparkline_window, VpnStatsRow};

fn at(secs: i64) -> UtcTime {
    UtcTime::new(secs, 0).unwrap()
}

fn texts(v: &[&str]) -> Vec<String> {
    v.iter().map(|s| s.to_string()).collect()
}

fn port(proto: &str, port: u16) -> Port {
    Port { proto: proto.to_string(), port }
}

fn labels(v: &[Port]) -> Vec<String> {
    v.iter().map(port_label).collect()
}

fn health() -> NodeHealth {
    NodeHealth {
        ts: at(0),
        sing_box_active: Some(true),
        fail2ban_active: None,
        disk_used_mib: Some(71),
        disk_total_mib: Some(100),
        mem_available_mib: Some(30),
        mem_total_mib: Some(100),
        load_1min_x100: Some(105),
        sing_box_log_bytes: Some(LOG_ALERT_BYTES),
        listening_ports_json: None,
        kernel_versions_json: None,
    }
}

#[test]
fn port_labels_read_back() {
    for p in [port("tcp", 443), port("udp", 0), port("", 65535)] {
        let back = parse_port_label(&port_label(&p)).unwrap();
        assert_eq!((back.proto, back.port), (p.proto, p.port));
    }
    assert!(parse_port_label("tcp").is_none());
    assert!(parse_port_label("tcp/").is_none());
    assert!(parse_port_label("tcp/65536").is_none());
    assert!(parse_port_label("tcp/4a").is_none());
    assert!(parse_port_label("tcp/1/2").is_none());
    assert_eq!(parse_port_label("tcp/+80").unwrap().port, 80);
    assert_eq!(parse_port_label("tcp/000443").unwrap().port, 443);
}

#[test]
fn ports_sort_by_transport_and_number() {
    let v = vec![port("udp", 1), port("tcp", 80), port("tcp", 8), port("udp", 1)];
    assert_eq!(labels(&sorted_ports(&v)), texts(&["tcp/8", "tcp/80", "udp/1"]));
}

#[test]
fn drift_of_a_probe() {
    let expected = vec![port("tcp", 443), port("udp", 8443), port("tcp", 443)];
    let json = "[\"tcp/22\",\"udp/51820\",\"tcp/443\",\"nonsense\",\"tcp/2222\"]";
    let d = drift_of_probe(Some(json), &expected, 2222);
    let observed = texts(&["tcp/22", "tcp/443", "tcp/2222", "udp/51820"]);
    assert_eq!(labels(&d.observed), observed);
    assert_eq!(labels(&d.missing), texts(&["udp/8443"]));
    assert_eq!(labels(&d.extra), texts(&["tcp/22", "udp/51820"]));
}

#[test]
fn drift_without_a_readable_probe() {
    let expected = vec![port("tcp", 443)];
    for json in [None, Some("not json"), Some("{\"a\":1}"), Some("[1,2]")] {
        let d = drift_of_probe(json, &expected, 22);
        assert!(d.observed.is_empty() && d.extra.is_empty());
        assert_eq!(labels(&d.missing), texts(&["tcp/443"]));
    }
}

#[test]
fn no_drift_when_sets_match() {
    let expected = vec![port("tcp", 443)];
    let d = drift_of_labels(&Some(texts(&["tcp/443", "tcp/22"])), &expected, 22);
    assert!(d.missing.is_empty() && d.extra.is_empty());
    let s = server_detail_drift_summary(&d.missing, &d.extra, true, "/b");
    assert!(matches!(s, DriftSummary::Match));
    let s = server_detail_drift_summary(&d.missing, &d.extra, false, "/b");
    assert!(matches!(s, DriftSummary::NoProbe));
}

#[test]
fn summary_and_grid_agree() {
    let protocols = vec![
        DeclaredProtocol { id: "vless+reality".to_string(), ports: vec![port("tcp", 443)] },
        DeclaredProtocol {
            id: "amneziawg".to_string(),
            ports: vec![port("udp", 51820), port("tcp", 1)],
        },
        DeclaredProtocol { id: "dns".to_string(), ports: vec![] },
    ];
    let expected = vec![port("tcp", 443), port("udp", 51820), port("tcp", 1)];
    let seen = Some(texts(&["tcp/443", "udp/30000", "udp/29999", "tcp/80", "tcp/2019", "udp/40000"]));
    let d = drift_of_labels(&seen, &expected, 22);
    match server_detail_drift_summary(&d.missing, &d.extra, true, "/admin/servers/x") {
        DriftSummary::Drift { missing, extra, href } => {
            assert_eq!((missing, extra), (2, 5));
            assert_eq!(href, "/admin/servers/x/protocols#drift-detail");
        }
        _ => panic!("there is drift"),
    }
    match server_detail_drift_section(&protocols, &d, true) {
        DriftSection::Grid(g) => {
            assert_eq!(g.extra, 5);
            assert_eq!(g.wg_peers, 2);
            assert_eq!(g.caddy_internals, texts(&["tcp/80", "tcp/2019"]));
            assert_eq!(g.unclassified, texts(&["udp/29999"]));
            assert_eq!(g.missing, "tcp/1, udp/51820");
            assert!(!g.matches);
            assert_eq!(g.rows[0].ports, "443/tcp");
            assert!(!g.rows[0].warn);
            assert_eq!(g.rows[1].ports, "51820/udp · 1/tcp");
            assert_eq!(g.rows[1].listening, vec![false, false]);
            assert!(g.rows[1].warn);
            assert_eq!(g.rows[2].ports, "");
            assert!(!g.rows[2].warn);
        }
        DriftSection::NoProbe => panic!("there is a probe"),
    }
    assert!(matches!(server_detail_drift_section(&protocols, &d, false), DriftSection::NoProbe));
}

#[test]
fn high_udp_ports_without_wireguard_are_unclassified() {
    let d = drift_of_labels(&Some(texts(&["udp/40000"])), &vec![], 22);
    match server_detail_drift_section(&vec![], &d, true) {
        DriftSection::Grid(g) => {
            assert_eq!(g.wg_peers, 0);
            assert_eq!(g.unclassified, texts(&["udp/40000"]));
        }
        DriftSection::NoProbe => panic!("there is a probe"),
    }
}

#[test]
fn ports_of_an_unknown_protocol() {
    assert!(expected_ports_for_protocol(&None).is_empty());
    let known = expected_ports_for_protocol(&Some(vec![port("tcp", 8443)]));
    assert_eq!(labels(&known), texts(&["tcp/8443"]));
}

fn user(id: &str, uuid: &str) -> RenderUser {
    RenderUser { id: id.to_string(), uuid: uuid.to_string() }
}

#[test]
fn orphans_are_what_no_grant_accounts_for() {
    let granted = vec![user("ann", "u1")];
    let all = vec![user("ann", "u1"), user("old", "u2"), user("new", "u2")];
    let node = texts(&["u3", "u1", "u2", "u3"]);
    let r = compute_orphan_uuids(&node, &granted, &all);
    assert_eq!(r.len(), 2);
    assert_eq!((r[0].uuid.as_str(), r[0].name.as_deref()), ("u2", Some("new")));
    assert_eq!((r[1].uuid.as_str(), r[1].name.as_deref()), ("u3", None));
    assert!(compute_orphan_uuids(&texts(&["u1"]), &granted, &all).is_empty());
}

#[test]
fn live_drift_outcomes() {
    for failure in [ConfigRead::Failed, ConfigRead::TimedOut, ConfigRead::Unparsable] {
        let r = load_drift_live(&failure, &vec![], &vec![]);
        assert!(matches!(r, DriftLiveResult::Unavailable));
    }
    let unread = load_drift_live(&ConfigRead::Unparsable, &vec![], &vec![]);
    let clean = load_drift_live(&ConfigRead::Users(vec![]), &vec![], &vec![]);
    let dirty = load_drift_live(&ConfigRead::Users(texts(&["x"])), &vec![], &vec![]);
    match server_detail_drift_detail_section("s%201", &None, false) {
        DriftDetail::Arm { href } => {
            assert_eq!(href, "/admin/servers/s%201/protocols?drift=live#drift-detail");
        }
        _ => panic!("not armed"),
    }
    let detail = |live| server_detail_drift_detail_section("s", &live, true);
    assert!(matches!(detail(Some(clean)), DriftDetail::Clean));
    assert!(matches!(detail(Some(dirty)), DriftDetail::Orphans));
    assert!(matches!(detail(Some(unread)), DriftDetail::Unreadable));
    assert!(matches!(detail(None), DriftDetail::Unreadable));
}

fn stat(pct: Option<u8>, rows: u64) -> UptimeStat {
    UptimeStat {
        uptime_pct: pct,
        total_rows: rows,
        down_rows: 1,
        last_outage_at: None,
        last_probe_at: None,
    }
}

#[test]
fn uptime_hidden_without_probes() {
    assert!(server_detail_uptime_section(&None, &None, &None, Locale::En).is_none());
    let empty = Some(stat(None, 0));
    assert!(server_detail_uptime_section(&empty, &None, &None, Locale::En).is_none());
    let v = server_detail_uptime_section(&empty, &None, &Some(stat(Some(0), 5)), Locale::En)
        .unwrap();
    assert_eq!((v.day.pct_attr.as_str(), v.month.pct_attr.as_str()), ("none", "0"));
    assert_eq!((v.week.probes, v.week.downs), (0, 0));
    assert_eq!((v.month.probes, v.month.downs), (5, 1));
    assert_eq!(v.month.label, "last 30d");
    assert!(!v.stale);
}

#[test]
fn uptime_outage_and_staleness() {
    let mut day = stat(Some(99), 10);
    day.last_probe_at = Some(at(10_000));
    day.last_outage_at = Some(at(9_000));
    let mut month = stat(Some(98), 100);
    month.last_outage_at = Some(at(2_000));
    month.last_probe_at = Some(at(0));
    let (day, month) = (Some(day), Some(month));
    let v = |now| server_detail_uptime_section_at(&day, &None, &month, Locale::En, at(now)).unwrap();
    assert_eq!(v(11_200).stale, false);
    assert_eq!(v(11_201).stale, true);
    assert_eq!(v(9_060).last_outage.unwrap().at.secs(), 9_000);
    assert_eq!(v(9_060).last_outage.unwrap().ago, "1 min ago");
    assert_eq!(v(9_000 + 7_200).last_outage.unwrap().ago, "2 h ago");
    assert_eq!(v(9_000 + 3 * 86_400).last_outage.unwrap().ago, "3 d ago");
    assert_eq!(v(0).last_outage.unwrap().ago, "0 min ago");
}

#[test]
fn uptime_takes_the_newest_of_all_windows() {
    let window = |probe: i64, outage: Option<i64>| {
        let mut s = stat(Some(99), 10);
        s.last_probe_at = Some(at(probe));
        s.last_outage_at = outage.map(at);
        Some(s)
    };
    let (day, week, month) = (window(100, None), window(5_000, Some(70)), window(300, Some(90)));
    let v = |now| server_detail_uptime_section_at(&day, &week, &month, Locale::En, at(now)).unwrap();
    assert_eq!(v(6_200).last_outage.unwrap().at.secs(), 90);
    assert_eq!((v(6_200).stale, v(6_201).stale), (false, true));
}

#[test]
fn hero_tiles() {
    let h = server_detail_hero(&Some(health()), Some("500 MiB"), Locale::En).unwrap();
    assert_eq!((h.sing_box.value.as_str(), h.sing_box.style.as_str()), ("active", "color: var(--soft);"));
    assert_eq!((h.fail2ban.value.as_str(), h.fail2ban.warn), ("?", false));
    assert_eq!((h.disk.value.as_str(), h.disk.warn), ("71%", true));
    assert_eq!((h.memory.value.as_str(), h.memory.warn), ("70%", false));
    assert_eq!(h.load.value, "1.05");
    assert_eq!((h.log.value.as_str(), h.log.warn), ("500 MiB", false));
    let mut bad = health();
    bad.sing_box_active = Some(false);
    bad.disk_total_mib = Some(0);
    bad.mem_available_mib = Some(200);
    bad.load_1min_x100 = None;
    bad.sing_box_log_bytes = Some(LOG_ALERT_BYTES + 1);
    let h = server_detail_hero(&Some(bad), None, Locale::Ru).unwrap();
    assert_eq!((h.sing_box.value.as_str(), h.sing_box.warn), ("не работает", true));
    assert_eq!(h.sing_box.class, "ed-status-tile warn");
    assert_eq!(h.disk.value, "?");
    assert_eq!(h.memory.value, "0%");
    assert_eq!(h.load.value, "?");
    assert_eq!((h.log.value.as_str(), h.log.style.as_str()), ("?", "color: var(--acc);"));
    assert!(server_detail_hero(&None, None, Locale::En).is_none());
}

#[test]
fn tiles() {
    let t = status_tile("up", "1", "red");
    assert_eq!((t.class, t.style.as_str(), t.warn), ("ed-status-tile", "color: red;", false));
    assert!(status_tile_with_warn("up", "1", "red", true).warn);
}

#[test]
fn resources_in_order_of_time() {
    let mut newest = health();
    newest.disk_used_mib = Some(9);
    newest.mem_total_mib = None;
    let mut oldest = health();
    oldest.disk_total_mib = Some(0);
    oldest.sing_box_log_bytes = None;
    let t = server_detail_resource_trend_section(&vec![newest, health(), oldest]).unwrap();
    assert_eq!(t.disk, vec![(71, 100), (9, 100)]);
    assert_eq!(t.memory, vec![(30, 100), (30, 100)]);
    assert_eq!(t.log, vec![LOG_ALERT_BYTES, LOG_ALERT_BYTES]);
    assert_eq!(t.samples, 3);
    assert!(server_detail_resource_trend_section(&vec![]).is_none());
}

#[test]
fn gap_share() {
    let t = |gap, total, samples| TrafficBreakdown {
        nic_total_bytes: total,
        attributed_bytes: 0,
        gap_bytes: gap,
        nic_samples: samples,
        nic_iface: None,
    };
    assert!(matches!(server_detail_gap_section(&t(1, 1, 1)), GapSection::NoData));
    for (gap, total, want, colour) in [
        (49, 100, 49, "var(--ink)"),
        (50, 100, 50, "var(--acc)"),
        (300, 100, 100, "var(--acc)"),
        (7, 0, 0, "var(--ink)"),
        (u64::MAX, u64::MAX, 1, "var(--ink)"),
    ] {
        match server_detail_gap_section(&t(gap, total, 2)) {
            GapSection::Shown { pct, colour: c, iface } => {
                assert_eq!((pct, c, iface.as_str()), (want, colour, "?"));
            }
            GapSection::NoData => panic!("two samples"),
        }
    }
    assert_eq!(server_detail_live_activity_section(u64::MAX, 1), u64::MAX);
    assert_eq!(server_detail_live_activity_section(2, 3), 5);
}

#[test]
fn likely_users_behind_sources() {
    let c = |user: Option<&str>, ip: &str| LiveConnection {
        user: user.map(|u| u.to_string()),
        source_ip: ip.to_string(),
    };
    let cs = vec![
        c(Some("bob"), "1.1.1.1"),
        c(Some("ann"), "1.1.1.1"),
        c(Some("ann"), "1.1.1.1"),
        c(None, "2.2.2.2"),
        c(Some("eve"), ""),
    ];
    let map = vec![
        SourceFetches {
            ip: "2.2.2.2".to_string(),
            users: vec![
                FetchHits { user: "zoe".to_string(), hits: 12 },
                FetchHits { user: "bob".to_string(), hits: 3 },
            ],
        },
        SourceFetches { ip: "3.3.3.3".to_string(), users: vec![] },
        SourceFetches {
            ip: "1.1.1.1".to_string(),
            users: vec![FetchHits { user: "zoe".to_string(), hits: 1 }],
        },
    ];
    let sources = texts(&["1.1.1.1", "2.2.2.2", "3.3.3.3", "4.4.4.4", ""]);
    match server_detail_live_connections_section(&Some(cs), &sources, &map, Locale::En) {
        LiveConnections::Shown { total, likely } => {
            assert_eq!(total, 5);
            assert!(matches!(&likely[0], LikelyUser::Log { user } if user == "ann"));
            match &likely[1] {
                LikelyUser::Sub { user, title, more } => {
                    assert_eq!((user.as_str(), *more), ("zoe", 1));
                    assert!(title.ends_with("(NAT can collide). (12 fetches from this IP)"));
                }
                _ => panic!("guessed"),
            }
            assert!(matches!(likely[2], LikelyUser::Unknown));
            assert!(matches!(likely[3], LikelyUser::Unknown));
            assert!(matches!(likely[4], LikelyUser::Unknown));
        }
        LiveConnections::NoSnapshot => panic!("a snapshot"),
    }
    let none = server_detail_live_connections_section(&None, &sources, &map, Locale::En);
    assert!(matches!(none, LiveConnections::NoSnapshot));
}

#[test]
fn server_traffic_is_clamped_into_the_window() {
    let w = pick_vpn_sparkline_window(Some("24h"));
    let row = |secs, up, down| VpnStatsRow {
        ts: at(secs),
        server_id: "s".to_string(),
        upload_bytes: up,
        download_bytes: down,
        active_connections: 0,
    };
    let now = 1_000_000;
    let rows = vec![
        row(now, 1, 2),
        row(now + 500, 4, 0),
        row(now - 3600, 8, 0),
        row(0, 16, 0),
        row(now - 23 * 3600, 32, 0),
    ];
    let v = server_detail_traffic_section_at(&rows, w, "s", Locale::En, at(now));
    assert_eq!(v.series[23], 7);
    assert_eq!(v.series[22], 8);
    assert_eq!(v.series[0], 48);
    assert_eq!((v.up, v.down, v.has_data), (61, 2, true));
    assert_eq!(v.picker[3].href, "/admin/servers/s/activity?vpn_window=all#timeframe");
    assert!(!server_detail_traffic_section(&vec![], w, "s", Locale::En).has_data);
}

#[test]
fn audit_searches() {
    let e = |action: &str| AuditEntry {
        ts: at(0),
        actor: "admin".to_string(),
        action: action.to_string(),
    };
    let rows = vec![e("server.deploy.x"), e("server.deploy"), e("server.bootstrap.done"), e("bootstrap")];
    assert_eq!(last_deploy(&rows), Some(1));
    assert_eq!(bootstrap_record(&rows), Some(2));
    assert_eq!(last_deploy(&vec![e("grant")]), None);
    assert_eq!(bootstrap_record(&vec![e("rebootstrap")]), None);
    assert_eq!(bootstrap_record(&vec![e("bootstrap")]), Some(0));
}
