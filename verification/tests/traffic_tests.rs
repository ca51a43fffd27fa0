use vpnctl_admin::locale::Locale;
use vpnctl_admin::time::{days_in_month, UtcTime};
use vpnctl_admin::traffic::{
    axis_values, fmt_traffic_progress, live_vpn_stats_section, live_vpn_stats_section_at, nice_byte_ceiling,
    pick_vpn_sparkline_window, project_month_end, project_month_end_at, project_on,
    totals, traffic_per_server, user_traffic_limit_section, user_traffic_limit_section_at,
    vpn_sparkline_windows, vpn_traffic_chart, vpn_traffic_chart_at, vpn_traffic_trend_series,
    vpn_traffic_trend_series_at, window_hours, window_picker_section, x_axis_tick_label, CapState,
    LiveVpnStats, VpnSparklineWindow, VpnStatsRow, DEFAULT_TRAFFIC_THRESHOLD_PCT, GIB, KIB, MIB,
    MSK_OFFSET, TIB,
};

/// 2026-05-17T14:30:00Z.
const NOW: i64 = 1_779_028_200;

fn at(secs: i64) -> UtcTime {
    UtcTime::new(secs, 0).unwrap()
}

fn row(secs: i64, server: &str, up: u64, down: u64, conns: u32) -> VpnStatsRow {
    VpnStatsRow {
        ts: at(secs),
        server_id: server.to_string(),
        upload_bytes: up,
        download_bytes: down,
        active_connections: conns,
    }
}

#[test]
fn windows_are_found_by_slug() {
    for w in vpn_sparkline_windows() {
        assert_eq!(pick_vpn_sparkline_window(Some(w.slug)).slug, w.slug);
        assert!(w.cells <= 30);
    }
    assert_eq!(pick_vpn_sparkline_window(None).slug, "24h");
    assert_eq!(pick_vpn_sparkline_window(Some("1y")).slug, "24h");
    assert_eq!(pick_vpn_sparkline_window(Some("")).slug, "24h");
    let all = pick_vpn_sparkline_window(Some("all"));
    assert_eq!((all.cells, all.bucket_hours), (30, 720));
    assert_eq!(window_hours(Some("7d")), 168);
    assert_eq!(window_hours(None), 24);
}

#[test]
fn byte_ceiling_is_next_round_value() {
    assert_eq!(nice_byte_ceiling(0), KIB);
    assert_eq!(nice_byte_ceiling(1), KIB);
    assert_eq!(nice_byte_ceiling(KIB), KIB);
    assert_eq!(nice_byte_ceiling(KIB + 1), 2 * KIB);
    assert_eq!(nice_byte_ceiling(50 * KIB), 50 * KIB);
    assert_eq!(nice_byte_ceiling(61_440), 1_048_576);
    assert_eq!(nice_byte_ceiling(501 * KIB), MIB);
    assert_eq!(nice_byte_ceiling(21 * MIB), 50 * MIB);
    assert_eq!(nice_byte_ceiling(87 * GIB / 10), 10 * GIB);
    assert_eq!(nice_byte_ceiling(600 * GIB), TIB);
    assert_eq!(nice_byte_ceiling(10 * TIB), 10 * TIB);
    assert_eq!(nice_byte_ceiling(10 * TIB + 1), 20 * TIB);
    assert_eq!(nice_byte_ceiling(12_094_627_905_536), 21_990_232_555_520);
    assert_eq!(nice_byte_ceiling(50 * TIB), 50 * TIB);
    assert_eq!(nice_byte_ceiling(50 * TIB + 1), 50 * TIB + 1);
    assert_eq!(nice_byte_ceiling(u64::MAX), u64::MAX);
}

#[test]
fn byte_ceiling_is_monotone_and_idempotent() {
    let mut last = 0;
    for n in [0, 1, 900, 1024, 3000, 70_000, 5_000_000, GIB, 3 * GIB, 11 * TIB, 51 * TIB] {
        let c = nice_byte_ceiling(n);
        assert!(c >= n && c >= last);
        assert_eq!(nice_byte_ceiling(c), c);
        last = c;
    }
}

#[test]
fn axis_labels_follow_the_bucket() {
    let msk = MSK_OFFSET;
    assert_eq!(x_axis_tick_label(NOW - 1800, 1, msk), "17:00");
    assert_eq!(x_axis_tick_label(NOW, 1, msk), "17:30");
    assert_eq!(x_axis_tick_label(NOW, 1, 0), "14:30");
    assert_eq!(x_axis_tick_label(NOW, 24, msk), "May 17");
    assert_eq!(x_axis_tick_label(NOW, 720, msk), "May 2026");
    assert_eq!(x_axis_tick_label(0, 1, -3600), "23:00");
}

#[test]
fn axis_labels_follow_the_calendar() {
    let label = |secs, hours| x_axis_tick_label(secs, hours, 0);
    assert_eq!(label(0, 24), "Jan 01");
    assert_eq!(label(0, 720), "Jan 1970");
    assert_eq!(label(-1, 24), "Dec 31");
    assert_eq!(label(-1, 720), "Dec 1969");
    assert_eq!(label(951_782_400, 24), "Feb 29");
    assert_eq!(label(951_868_800, 24), "Mar 01");
    assert_eq!(label(253_402_300_799, 720), "Dec 9999");
    assert_eq!(label(253_402_300_800, 720), "Jan +10000");
    assert_eq!(label(-62_167_219_200, 720), "Jan 0000");
    assert_eq!(label(-62_167_219_201, 720), "Dec -0001");
    let months = ["Jan", "Feb", "Mar", "Apr", "May", "Jun", "Jul", "Aug", "Sep", "Oct", "Nov", "Dec"];
    let mut day: i64 = 0;
    for (m, name) in months.iter().enumerate() {
        assert_eq!(label(day * 86_400, 24), format!("{} 01", name));
        day += days_in_month(1970, m as u32 + 1) as i64;
        assert_eq!(label(day * 86_400 - 1, 720), format!("{} 1970", name));
    }
}

#[test]
fn trend_ignores_the_order_of_rows() {
    let w = pick_vpn_sparkline_window(Some("7d"));
    let rows = |order: [usize; 4]| -> Vec<VpnStatsRow> {
        let days = [0, 1, 1, 6];
        order.iter().map(|k| row(NOW - days[*k] * 86_400, "a", 10 + *k as u64, 1, 0)).collect()
    };
    let series = |order| vpn_traffic_trend_series_at(&rows(order), w, at(NOW));
    assert_eq!(series([0, 1, 2, 3]), vec![14, 0, 0, 0, 0, 25, 11]);
    assert_eq!(series([3, 1, 0, 2]), series([0, 1, 2, 3]));
    assert_eq!(series([2, 3, 1, 0]), series([0, 1, 2, 3]));
}

#[test]
fn servers_make_up_the_totals() {
    let rows = vec![
        row(NOW, "b", 1, 10, 4),
        row(NOW, "a", 2, 20, 9),
        row(NOW, "b", 4, 40, 7),
        row(NOW, "c", 8, 80, 0),
    ];
    let v = traffic_per_server(&rows);
    assert_eq!(totals(&rows), (15, 150));
    assert_eq!(v.iter().map(|t| t.up).sum::<u64>(), 15);
    assert_eq!(v.iter().map(|t| t.down).sum::<u64>(), 150);
    assert_eq!(v.iter().map(|t| t.peak).max(), Some(9));
}

#[test]
fn trend_puts_rows_in_their_cells() {
    let w = pick_vpn_sparkline_window(Some("24h"));
    let rows = vec![
        row(NOW, "a", 1, 2, 0),
        row(NOW - 1799, "a", 10, 20, 0),
        row(NOW - 1801, "b", 100, 200, 0),
        row(NOW - 23 * 3600, "b", 1000, 0, 0),
        row(NOW - 24 * 3600, "b", 7, 7, 0),
        row(NOW + 3600, "b", 9, 9, 0),
    ];
    let t = vpn_traffic_trend_series_at(&rows, w, at(NOW));
    assert_eq!(t.len(), 24);
    assert_eq!(t[23], 33);
    assert_eq!(t[22], 300);
    assert_eq!(t[0], 1000);
    assert_eq!(t.iter().sum::<u64>(), 1333);
}

#[test]
fn trend_saturates() {
    let w = pick_vpn_sparkline_window(None);
    let rows = vec![row(NOW, "a", u64::MAX, 1, 0), row(NOW, "a", 5, 5, 0)];
    assert_eq!(vpn_traffic_trend_series_at(&rows, w, at(NOW))[23], u64::MAX);
}

#[test]
fn trend_without_bucket_length_is_zero() {
    let mut w: VpnSparklineWindow = pick_vpn_sparkline_window(None);
    w.bucket_hours = 0;
    let rows = vec![row(NOW, "a", 1, 1, 0)];
    assert_eq!(vpn_traffic_trend_series_at(&rows, w, at(NOW)), vec![0; 24]);
    assert!(vpn_traffic_chart_at(&rows, w, Locale::En, 0, at(NOW)).is_none());
}

#[test]
fn trend_and_chart_agree() {
    let w = pick_vpn_sparkline_window(Some("7d"));
    let rows = vec![
        row(NOW, "a", 1, 2, 0),
        row(NOW - 86_400, "a", u64::MAX, 3, 0),
        row(NOW - 86_400, "a", 4, 5, 0),
        row(NOW - 6 * 86_400, "b", 6, 7, 0),
    ];
    let t = vpn_traffic_trend_series_at(&rows, w, at(NOW));
    let c = vpn_traffic_chart_at(&rows, w, Locale::Ru, 10_800, at(NOW)).unwrap();
    assert_eq!(t, c.totals);
    for i in 0..7 {
        assert_eq!(c.totals[i], c.up[i].saturating_add(c.down[i]));
    }
    assert_eq!(c.raw_max, u64::MAX);
    assert_eq!(c.y_max, u64::MAX);
    assert_eq!(c.total, u64::MAX as u128 + 3 + 13);
    assert_eq!(c.per_bucket, "в сутки");
}

#[test]
fn chart_starts_and_labels() {
    let w = pick_vpn_sparkline_window(Some("24h"));
    let c = vpn_traffic_chart_at(&vec![], w, Locale::En, 0, at(NOW)).unwrap();
    assert_eq!(c.starts[23], NOW - 1800);
    assert_eq!(c.starts[0], NOW - 1800 - 23 * 3600);
    assert_eq!(c.labels[23], "14:00");
    assert_eq!(c.labels[0], "15:00");
    assert_eq!((c.raw_max, c.y_max, c.total), (0, KIB, 0));
    assert_eq!(c.y_values, vec![0, 256, 512, 768, 1024]);
    assert_eq!(c.per_bucket, "per hour");
}

#[test]
fn vertical_axis_is_marked_in_quarters() {
    assert_eq!(axis_values(10 * GIB), vec![0, 5 * GIB / 2, 5 * GIB, 15 * GIB / 2, 10 * GIB]);
    assert_eq!(axis_values(7), vec![0, 1, 3, 5, 7]);
    assert_eq!(axis_values(0), vec![0; 5]);
    let top = u64::MAX;
    assert_eq!(axis_values(top), vec![0, top / 4, top / 2, top - top / 4 - 1, top]);
}

#[test]
fn rows_outside_the_window_count_nowhere() {
    let w = pick_vpn_sparkline_window(Some("24h"));
    let chart = |rows: Vec<VpnStatsRow>| vpn_traffic_chart_at(&rows, w, Locale::En, 0, at(NOW)).unwrap();
    let inside = chart(vec![row(NOW, "a", 3, 4, 0)]);
    let c = chart(vec![
        row(NOW - 30 * 3600, "a", 900, 900, 0),
        row(NOW, "a", 3, 4, 0),
        row(NOW + 7200, "a", 900, 900, 0),
    ]);
    assert_eq!((c.raw_max, c.total), (7, 7));
    assert_eq!((c.up, c.down, c.totals), (inside.up, inside.down, inside.totals));
}

#[test]
fn chart_labels_by_window() {
    let shown = |slug: &str| -> Vec<usize> {
        let w = pick_vpn_sparkline_window(Some(slug));
        let c = vpn_traffic_chart_at(&vec![], w, Locale::En, 0, at(NOW)).unwrap();
        (0..c.labelled.len()).filter(|i| c.labelled[*i]).collect()
    };
    assert_eq!(shown("24h"), vec![0, 6, 12, 18]);
    assert_eq!(shown("7d"), vec![0, 1, 2, 3, 4, 5, 6]);
    assert_eq!(shown("30d"), vec![0, 5, 10, 15, 20, 25]);
    assert_eq!(shown("all"), vec![0, 6, 12, 18, 24]);
}

#[test]
fn picker_marks_the_active_window() {
    let tabs = window_picker_section("/admin/x", "30d", Locale::En);
    assert_eq!(tabs.len(), 4);
    assert_eq!(tabs.iter().filter(|t| t.active).count(), 1);
    assert!(tabs[2].active);
    assert_eq!(tabs[1].href, "/admin/x?vpn_window=7d#timeframe");
    assert_eq!(tabs[1].label, "7 days");
    assert_eq!(window_picker_section("", "", Locale::Ru)[3].label, "всё");
}

#[test]
fn progress_text() {
    assert_eq!(fmt_traffic_progress(12, 50, "1.2 GiB", "5 GiB"), "1.2 GiB / 5 GiB (24%)");
    assert_eq!(fmt_traffic_progress(5, 0, "5 B", "0 B"), "5 B / 0 B (0%)");
    assert_eq!(fmt_traffic_progress(u64::MAX, 1, "x", "y"), "x / y (999%)");
}

#[test]
fn month_lengths() {
    assert_eq!(days_in_month(2026, 1), 31);
    assert_eq!(days_in_month(2026, 4), 30);
    assert_eq!(days_in_month(2026, 2), 28);
    assert_eq!(days_in_month(2024, 2), 29);
    assert_eq!(days_in_month(1900, 2), 28);
    assert_eq!(days_in_month(2000, 2), 29);
    assert_eq!(days_in_month(-4, 2), 29);
    assert_eq!(days_in_month(2026, 0), 30);
    assert_eq!(days_in_month(2026, 13), 30);
}

#[test]
fn month_end_projection() {
    assert_eq!(project_on(0, 2026, 5, 17), None);
    assert_eq!(project_on(170, 2026, 5, 17), Some(310));
    assert_eq!(project_on(100, 2026, 2, 28), Some(100));
    assert_eq!(project_on(u64::MAX, 2026, 5, 1), Some(u64::MAX));
    assert_eq!(project_month_end_at(170, at(NOW)), Some(310));
    assert_eq!(project_month_end_at(0, at(NOW)), None);
    assert_eq!(project_month_end(0), None);
    assert!(project_month_end(1000).unwrap() >= 1000);
    assert!(project_month_end_at(99, at(NOW)) <= project_month_end_at(100, at(NOW)));
}

#[test]
fn cap_states() {
    let v = user_traffic_limit_section_at(Some(79), Some((Some(100), None)), at(NOW));
    assert_eq!(v.threshold, DEFAULT_TRAFFIC_THRESHOLD_PCT);
    let c = v.cap.unwrap();
    assert!(matches!(c.state, CapState::Under));
    assert!(!c.bar_accent);
    assert_eq!((c.pct, c.bar_pct), (79, 79));
    let p = c.projection.unwrap();
    assert_eq!((p.bytes, p.pct, p.over), (144, 144, true));
    let c = user_traffic_limit_section_at(Some(80), Some((Some(100), None)), at(NOW)).cap.unwrap();
    assert!(matches!(c.state, CapState::Near));
    assert!(c.bar_accent);
    let c = user_traffic_limit_section_at(Some(250), Some((Some(100), Some(50))), at(NOW))
        .cap
        .unwrap();
    assert!(matches!(c.state, CapState::Over));
    assert_eq!((c.pct, c.bar_pct), (250, 100));
}

#[test]
fn cap_missing_or_unread() {
    assert!(user_traffic_limit_section_at(Some(5), Some((None, Some(60))), at(NOW)).cap.is_none());
    assert!(user_traffic_limit_section_at(Some(5), Some((Some(0), None)), at(NOW)).cap.is_none());
    let v = user_traffic_limit_section(None, None);
    assert_eq!((v.used, v.threshold), (0, 80));
    assert!(v.cap.is_none());
    let c = user_traffic_limit_section(None, Some((Some(10), None))).cap.unwrap();
    assert!(c.projection.is_none());
}

#[test]
fn servers_are_summed_in_order_of_id() {
    let rows = vec![
        row(NOW, "nl", 1, 2, 3),
        row(NOW, "de", 10, 20, 5),
        row(NOW, "nl", 4, 5, 2),
    ];
    let v = traffic_per_server(&rows);
    assert_eq!(v.len(), 2);
    assert_eq!((v[0].server_id.as_str(), v[0].total, v[0].peak), ("de", 30, 5));
    assert_eq!((v[1].server_id.as_str(), v[1].up, v[1].down, v[1].peak), ("nl", 5, 7, 3));
}

#[test]
fn live_stats_states() {
    let unread = live_vpn_stats_section_at(&None, None, "u", Locale::En, 0, at(NOW));
    assert!(matches!(unread, LiveVpnStats::Unavailable));
    let none = live_vpn_stats_section_at(&Some(vec![]), None, "u", Locale::En, 0, at(NOW));
    assert!(matches!(none, LiveVpnStats::Empty));
    let rows = Some(vec![row(NOW, "de", 1, 2, 7)]);
    match live_vpn_stats_section_at(&rows, Some("7d"), "u%20x", Locale::En, 10_800, at(NOW)) {
        LiveVpnStats::Shown(t) => {
            assert_eq!((t.up, t.down, t.peak, t.snapshots), (1, 2, 7, 1));
            assert_eq!(t.window_label, "7 days");
            assert_eq!(t.snapshots_noun, " snapshot");
            assert!(t.show_trend);
            assert_eq!(t.trend_max, 3);
            assert_eq!(t.trend, t.chart.unwrap().totals);
            assert_eq!(t.picker[0].href, "/admin/users/u%20x/traffic?vpn_window=24h#timeframe");
        }
        _ => panic!("rows are shown"),
    }
}

#[test]
fn clock_reading_versions_run() {
    let w = pick_vpn_sparkline_window(None);
    let far = vec![row(0, "a", 1, 1, 1)];
    assert_eq!(vpn_traffic_trend_series(&far, w), vec![0; 24]);
    assert_eq!(vpn_traffic_chart(&far, w, Locale::En, 0).unwrap().raw_max, 0);
    match live_vpn_stats_section(&Some(far), None, "u", Locale::Ru, 0) {
        LiveVpnStats::Shown(t) => {
            assert!(!t.show_trend);
            assert_eq!(t.snapshots_noun, " снэпшота");
        }
        _ => panic!("rows are shown"),
    }
}

#[test]
fn instants_have_a_range() {
    assert!(UtcTime::new(8_210_266_876_799, 999_999_999).is_some());
    assert!(UtcTime::new(8_210_266_876_800, 0).is_none());
    assert!(UtcTime::new(-8_334_601_228_801, 0).is_none());
    assert!(UtcTime::new(0, 1_000_000_000).is_none());
    let a = UtcTime::new(10, 5).unwrap();
    let b = UtcTime::new(8, 6).unwrap();
    assert_eq!(a.seconds_since(&b), 1);
    assert_eq!(b.seconds_since(&a), -1);
    assert!(a.after(&b) && !b.after(&a) && !a.after(&a));
}
