use vpnctl_admin::locale::Locale;
use vpnctl_admin::origins::{
    classify_reserved_ip, format_origin_ts, ip_geo_fallback, origin_ts, ua_clusters_section,
    ua_verdict, user_is_likely_shared, user_source_ips_section, user_subscription_origins_section,
    GeoCell, GeoEntry, IpAddress, OriginTime, SourcePlace, SubDeviceFp, SubOriginAsn,
    SubOriginCountry, SubOriginIp, SubscriptionOrigins, UaCluster, UaClusters, UaVerdict,
    VpnUserSourceIpRow,
};
use vpnctl_admin::presence::{
    humanize_since, humanize_since_at, unresolved_sources, user_online_badge,
    user_online_badge_at, LiveConnection, LiveSnapshot, OnlineBadge, SourceOwners,
};
use vpnctl_admin::sessions::{
    user_sessions_section, user_sessions_section_at, user_top_destinations_section, Session,
};
use vpnctl_admin::share_links::{
    collect_links, ninitux_url, plan_links, plan_share_links, qr_card, qr_svg, share_link_card,
    sub_url, user_for_server_render, LinkKind, QrView, RenderUser, ServerPeers, ShareServer,
    QR_CARD_PX, QR_DISPLAY_PX,
};
use vpnctl_admin::time::UtcTime;

fn at(secs: i64) -> UtcTime {
    UtcTime::new(secs, 0).unwrap()
}

fn texts(v: &[&str]) -> Vec<String> {
    v.iter().map(|s| s.to_string()).collect()
}

fn conn(user: Option<&str>, ip: &str) -> LiveConnection {
    LiveConnection { user: user.map(|u| u.to_string()), source_ip: ip.to_string() }
}

fn snap(id: &str, connections: Vec<LiveConnection>) -> LiveSnapshot {
    LiveSnapshot { server_id: id.to_string(), connections }
}

#[test]
fn badge_counts_attributed_and_guessed_connections() {
    let snaps = vec![
        snap("nl", vec![conn(Some("ann"), "1.1.1.1"), conn(None, "2.2.2.2"), conn(None, "")]),
        snap("de", vec![conn(Some("bob"), "2.2.2.2"), conn(None, "2.2.2.2"), conn(None, "3.3.3.3")]),
        snap("us", vec![conn(Some("bob"), "9.9.9.9")]),
    ];
    assert_eq!(unresolved_sources(&snaps), texts(&["2.2.2.2", "3.3.3.3"]));
    let owners = vec![
        SourceOwners { ip: "2.2.2.2".to_string(), users: texts(&["ann", "bob"]) },
        SourceOwners { ip: "3.3.3.3".to_string(), users: texts(&["bob", "ann"]) },
    ];
    match user_online_badge_at("ann", &snaps, &owners, None, Locale::En, at(0)) {
        OnlineBadge::Online { total, noun, preposition, servers, server_list } => {
            assert_eq!((total, noun, preposition), (3, "conns", "across "));
            assert_eq!(servers, texts(&["de", "nl"]));
            assert_eq!(server_list, "de, nl");
        }
        _ => panic!("ann is online"),
    }
}

#[test]
fn badge_attribution_to_another_user_wins() {
    let snaps = vec![snap("de", vec![conn(Some("bob"), "2.2.2.2")])];
    let owners = vec![SourceOwners { ip: "2.2.2.2".to_string(), users: texts(&["ann"]) }];
    match user_online_badge_at("ann", &snaps, &owners, None, Locale::Ru, at(0)) {
        OnlineBadge::Offline { seen } => assert_eq!(seen, "ни разу не подключался"),
        _ => panic!("ann is offline"),
    }
}

#[test]
fn badge_singular_and_offline_text() {
    let snaps = vec![snap("de", vec![conn(Some("ann"), "")])];
    match user_online_badge("ann", &snaps, &vec![], None, Locale::En) {
        OnlineBadge::Online { total, noun, preposition, .. } => {
            assert_eq!((total, noun, preposition), (1, "conn", "on "));
        }
        _ => panic!("ann is online"),
    }
    match user_online_badge_at("ann", &vec![], &vec![], Some(at(0)), Locale::En, at(7200)) {
        OnlineBadge::Offline { seen } => assert_eq!(seen, "last seen 2h ago"),
        _ => panic!("ann is offline"),
    }
}

#[test]
fn ages_in_whole_units() {
    let cases = [
        (0, "just now"),
        (59, "just now"),
        (60, "1m ago"),
        (3599, "59m ago"),
        (3600, "1h ago"),
        (86_399, "23h ago"),
        (86_400, "1d ago"),
        (864_000, "10d ago"),
        (-5000, "just now"),
    ];
    for (age, text) in cases {
        assert_eq!(humanize_since_at(at(1_000_000), Locale::En, at(1_000_000 + age)), text);
    }
    assert_eq!(humanize_since_at(at(0), Locale::Ru, at(120)), "2м назад");
    assert!(humanize_since(at(0), Locale::En).ends_with("d ago"));
}

#[test]
fn reserved_address_classes() {
    let v4 = |a, b, c, d| classify_reserved_ip(Some(IpAddress::V4([a, b, c, d])));
    assert_eq!(v4(127, 0, 0, 1), Some("loopback"));
    assert_eq!(v4(10, 1, 2, 3), Some("private/LAN"));
    assert_eq!(v4(172, 16, 0, 1), Some("private/LAN"));
    assert_eq!(v4(172, 32, 0, 1), None);
    assert_eq!(v4(192, 168, 0, 236), Some("private/LAN"));
    assert_eq!(v4(100, 64, 0, 1), Some("CGNAT"));
    assert_eq!(v4(100, 127, 255, 255), Some("CGNAT"));
    assert_eq!(v4(100, 128, 0, 1), None);
    assert_eq!(v4(169, 254, 7, 7), Some("link-local"));
    assert_eq!(v4(0, 0, 0, 0), Some("unspecified"));
    assert_eq!(v4(8, 8, 8, 8), None);
    let v6 = |s| classify_reserved_ip(Some(IpAddress::V6(s)));
    assert_eq!(v6([0, 0, 0, 0, 0, 0, 0, 1]), Some("loopback"));
    assert_eq!(v6([0; 8]), Some("unspecified"));
    assert_eq!(v6([0xfd12, 0, 0, 0, 0, 0, 0, 1]), Some("private/ULA"));
    assert_eq!(v6([0xfe80, 0, 0, 0, 0, 0, 0, 1]), Some("link-local"));
    assert_eq!(v6([0xfec0, 0, 0, 0, 0, 0, 0, 1]), None);
    assert_eq!(v6([0x2001, 0xdb8, 0, 0, 0, 0, 0, 1]), None);
    assert_eq!(classify_reserved_ip(None), None);
}

#[test]
fn geo_fallback_prefers_the_class() {
    let lan = Some(IpAddress::V4([10, 0, 0, 1]));
    assert!(matches!(ip_geo_fallback(lan, Locale::En), GeoCell::Reserved("private/LAN")));
    assert!(matches!(ip_geo_fallback(None, Locale::Ru), GeoCell::Unknown("(неизвестно)")));
}

#[test]
fn origin_times_are_parsed() {
    match format_origin_ts("2026-05-17T17:30:00.5+03:00") {
        OriginTime::At { secs, nanos } => assert_eq!((secs, nanos), (1_779_028_200, 500_000_000)),
        OriginTime::Raw(_) => panic!("an RFC 3339 time"),
    }
    match format_origin_ts("yesterday") {
        OriginTime::Raw(s) => assert_eq!(s, "yesterday"),
        OriginTime::At { .. } => panic!("no time"),
    }
    assert!(matches!(origin_ts("x", Some((7, 8))), OriginTime::At { secs: 7, nanos: 8 }));
    assert!(matches!(origin_ts("x", None), OriginTime::Raw(_)));
}

#[test]
fn origins_empty_only_without_rows() {
    let fp = SubDeviceFp { distinct_device_classes: 0, distinct_uas: 4 };
    let none =
        user_subscription_origins_section(&vec![], &vec![], &vec![], &fp, Locale::En);
    assert!(matches!(none, SubscriptionOrigins::Empty));
    let asn = vec![SubOriginAsn {
        asn: Some("AS1".to_string()),
        country: Some(String::new()),
        fetches: 1,
        ips: 1,
    }];
    match user_subscription_origins_section(&vec![], &asn, &vec![], &fp, Locale::En) {
        SubscriptionOrigins::Shown(t) => {
            assert!(!t.has_families);
            assert_eq!((t.lead, t.lead_noun), (4, "distinct user-agents"));
            assert!(matches!(&t.asns[0].asn, GeoCell::Known(s) if s == "AS1"));
            assert!(matches!(t.asns[0].country, GeoCell::Unknown("(unknown)")));
        }
        SubscriptionOrigins::Empty => panic!("one row"),
    }
}

#[test]
fn origins_rows_and_families() {
    let fp = SubDeviceFp { distinct_device_classes: 2, distinct_uas: 9 };
    let countries =
        vec![SubOriginCountry { country: None, fetches: 1, ips: 1, asns: 1 }];
    let ips = vec![SubOriginIp {
        ip: "192.168.0.5".to_string(),
        address: Some(IpAddress::V4([192, 168, 0, 5])),
        country: None,
        asn: Some("AS7".to_string()),
        fetches: 3,
        first_seen: "2026-05-17T00:00:00Z".to_string(),
        last_seen: "later".to_string(),
    }];
    match user_subscription_origins_section(&countries, &vec![], &ips, &fp, Locale::Ru) {
        SubscriptionOrigins::Shown(t) => {
            assert!(t.has_families);
            assert_eq!((t.lead, t.lead_noun), (2, "клиентских семейств"));
            assert!(matches!(t.countries[0], GeoCell::Unknown("(неизвестно)")));
            assert!(matches!(t.ips[0].country, GeoCell::Reserved("private/LAN")));
            assert!(matches!(&t.ips[0].asn, GeoCell::Known(s) if s == "AS7"));
            assert!(matches!(t.ips[0].first_seen, OriginTime::At { nanos: 0, .. }));
            assert!(matches!(&t.ips[0].last_seen, OriginTime::Raw(s) if s == "later"));
        }
        SubscriptionOrigins::Empty => panic!("two rows"),
    }
}

#[test]
fn source_ips_count_public_and_place() {
    let r = |ip: &str, address| VpnUserSourceIpRow {
        source_ip: ip.to_string(),
        address,
        hit_count: 1,
    };
    let rows = vec![
        r("8.8.8.8", Some(IpAddress::V4([8, 8, 8, 8]))),
        r("10.0.0.1", Some(IpAddress::V4([10, 0, 0, 1]))),
        r("garbage", None),
        r("9.9.9.9", Some(IpAddress::V4([9, 9, 9, 9]))),
    ];
    let g = |ip: &str, country: Option<&str>, asn: Option<&str>| GeoEntry {
        ip: ip.to_string(),
        country: country.map(|s| s.to_string()),
        asn: asn.map(|s| s.to_string()),
    };
    let geo = vec![
        g("8.8.8.8", Some("US"), Some("")),
        g("9.9.9.9", Some("CH"), Some("AS19281")),
        g("10.0.0.1", Some(""), Some("x")),
    ];
    let v = user_source_ips_section(&rows, &geo, Locale::En);
    assert_eq!(v.distinct_public, 3);
    assert!(
        matches!(&v.places[0], SourcePlace::Known { country, asn: None } if country == "US")
    );
    assert!(matches!(v.places[1], SourcePlace::Fallback(GeoCell::Reserved("private/LAN"))));
    assert!(matches!(v.places[2], SourcePlace::Fallback(GeoCell::Unknown("(unknown)"))));
    assert!(
        matches!(&v.places[3], SourcePlace::Known { asn: Some(a), .. } if a == "AS19281")
    );
}

#[test]
fn verdicts_by_spread() {
    assert!(matches!(ua_verdict(1, 3), UaVerdict::LikelyShared));
    assert!(matches!(ua_verdict(3, 1), UaVerdict::LikelyRoaming));
    assert!(matches!(ua_verdict(3, 0), UaVerdict::LikelyRoaming));
    assert!(matches!(ua_verdict(3, 2), UaVerdict::Unlabeled));
    assert!(matches!(ua_verdict(2, 1), UaVerdict::Unlabeled));
    assert_eq!(UaVerdict::LikelyShared.label(), "likely shared URL");
    assert_eq!(UaVerdict::LikelyRoaming.label(), "likely roaming");
    assert_eq!(UaVerdict::Unlabeled.label(), "—");
    assert_eq!(
        UaVerdict::LikelyShared.style(),
        "padding: 5px 8px; color: var(--acc); font-style: italic;"
    );
    assert_eq!(
        UaVerdict::LikelyRoaming.style(),
        "padding: 5px 8px; color: var(--soft); font-style: italic;"
    );
    assert_eq!(UaVerdict::Unlabeled.style(), "padding: 5px 8px; color: var(--mute);");
}

#[test]
fn shared_by_providers_or_by_client() {
    let c = |ips, nets| UaCluster { ua: None, hits: 1, distinct_ips: ips, distinct_slash16: nets };
    assert!(user_is_likely_shared(3, &vec![]));
    assert!(!user_is_likely_shared(2, &vec![c(9, 2), c(9, 1)]));
    assert!(user_is_likely_shared(0, &vec![c(1, 1), c(3, 3)]));
    assert!(matches!(ua_clusters_section(&None), UaClusters::Unavailable));
    assert!(matches!(ua_clusters_section(&Some(vec![])), UaClusters::Hidden));
    match ua_clusters_section(&Some(vec![c(1, 1), c(5, 5)])) {
        UaClusters::Shown(v) => {
            assert!(v == vec![UaVerdict::Unlabeled, UaVerdict::LikelyShared]);
        }
        _ => panic!("two clusters"),
    }
}

#[test]
fn session_durations_and_liveness() {
    let s = |start, last| Session {
        server_id: "de".to_string(),
        server_path: "de%2F1".to_string(),
        started_at: at(start),
        last_seen: at(last),
        conn_count_peak: 1,
    };
    let rows = vec![s(0, 0), s(0, 59), s(0, 300), s(0, 3600), s(0, 7505 * 60), s(50, 0)];
    let v = user_sessions_section_at(&Some(rows), at(360));
    let shown: Vec<&str> = v.iter().map(|v| v.duration.as_str()).collect();
    assert_eq!(shown, vec!["≤5m", "≤5m", "5m", "1h00m", "125h05m", "≤5m"]);
    assert!(!v[0].live);
    assert!(v[1].live);
    assert!(v[3].live);
    assert_eq!(v[0].href, "/admin/servers/de%2F1");
    assert!(user_sessions_section(&None).is_empty());
    assert!(!user_sessions_section(&Some(vec![s(0, 0)]))[0].live);
}

#[test]
fn destinations_to_resolve_are_distinct() {
    let labels = vec![
        Some("2.2.2.2".to_string()),
        None,
        Some("1.1.1.1".to_string()),
        Some("2.2.2.2".to_string()),
    ];
    assert_eq!(user_top_destinations_section(&labels), texts(&["1.1.1.1", "2.2.2.2"]));
    assert!(user_top_destinations_section(&vec![None]).is_empty());
}

#[test]
fn subscription_urls() {
    assert_eq!(sub_url(Some("vpn.lan:1"), "tok"), "http://vpn.lan:1/sub/tok");
    assert_eq!(sub_url(None, "tok"), "http://127.0.0.1:18402/sub/tok");
    assert_eq!(
        ninitux_url("abc", true).unwrap(),
        "https://ninitux.com/api/v1/app/config/abc"
    );
    assert!(ninitux_url("evil?h=x.com", false).is_none());
}

#[test]
fn qr_codes_differ_by_link() {
    let a = match qr_svg("http://a/sub/1") {
        QrView::Image(s) => s,
        QrView::Failed(e) => panic!("{}", e),
    };
    let b = match qr_svg("http://a/sub/2") {
        QrView::Image(s) => s,
        QrView::Failed(e) => panic!("{}", e),
    };
    assert!(a.contains("<svg") && a.contains("#1a1611") && a.contains("#f5efe6"));
    assert_ne!(a, b);
    assert_eq!(QR_CARD_PX, QR_DISPLAY_PX + 24);
}

#[test]
fn qr_failure_is_shown() {
    let long = "x".repeat(10_000);
    match qr_svg(&long) {
        QrView::Failed(e) => assert!(e.starts_with("QR generation failed: ")),
        QrView::Image(_) => panic!("too long for a code"),
    }
    match qr_card(Err("why".to_string())) {
        QrView::Failed(e) => assert_eq!(e, "QR generation failed: why"),
        QrView::Image(_) => panic!("an error"),
    }
}

#[test]
fn card_encodes_what_it_offers() {
    let card = share_link_card("vless://secret", "vless://…");
    assert_eq!(card.link, "vless://secret");
    assert_eq!(card.preview, "vless://…");
    match (card.qr, qr_svg("vless://secret")) {
        (QrView::Image(a), QrView::Image(b)) => assert_eq!(a, b),
        _ => panic!("a short link"),
    }
}

fn user(id: &str, uuid: &str) -> RenderUser {
    RenderUser { id: id.to_string(), uuid: uuid.to_string() }
}

#[test]
fn per_server_uuid() {
    let u = user("ann", "global");
    let found = user_for_server_render(&u, &vec![user("bob", "b"), user("ann", "own")]);
    assert_eq!((found.user.id.as_str(), found.user.uuid.as_str()), ("ann", "own"));
    assert!(!found.missing);
    let absent = user_for_server_render(&u, &vec![user("bob", "b")]);
    assert_eq!(absent.user.uuid, "global");
    assert!(absent.missing);
    assert!(!user_for_server_render(&u, &vec![]).missing);
}

fn server(id: &str, protocols: &[&str], kernels: &[&str]) -> ShareServer {
    ShareServer {
        id: id.to_string(),
        enabled_protocols: texts(protocols),
        kernels: texts(kernels),
    }
}

#[test]
fn link_plans_take_eligible_servers() {
    let servers = vec![
        server("a", &["vless"], &["sing-box"]),
        server("b", &["wireguard"], &["sing-box"]),
        server("c", &["tuic", "wireguard"], &["amneziawg"]),
        server("d", &["wireguard"], &["amneziawg"]),
    ];
    let secrets = texts(&["a", "b", "c"]);
    let peers = vec![ServerPeers {
        server_id: "c".to_string(),
        users: vec![user("ann", "on-c")],
    }];
    let u = user("ann", "global");
    let amnezia = plan_links(&u, &servers, &secrets, &peers, LinkKind::Amnezia);
    let at: Vec<usize> = amnezia.iter().map(|j| j.server).collect();
    assert_eq!(at, vec![1, 2]);
    assert_eq!(amnezia[0].user.uuid, "global");
    assert_eq!(amnezia[1].user.uuid, "on-c");
    let awg = plan_links(&u, &servers, &secrets, &peers, LinkKind::Awg);
    assert_eq!(awg.len(), 1);
    assert_eq!(awg[0].server, 2);
    let links = collect_links(&amnezia, &vec![None, Some("vpn://c".to_string())], &servers);
    assert_eq!(links.len(), 1);
    assert_eq!((links[0].server_id.as_str(), links[0].job), ("c", 1));
    assert_eq!(links[0].link, "vpn://c");
}

#[test]
fn share_links_per_known_protocol() {
    let servers = vec![
        server("a", &["vless", "odd", "tuic"], &[]),
        server("b", &["vless"], &[]),
        server("c", &["tuic"], &[]),
    ];
    let jobs = plan_share_links(
        &user("ann", "g"),
        &servers,
        &texts(&["a", "c"]),
        &texts(&["vless", "tuic"]),
        &vec![],
    );
    let at: Vec<(usize, usize)> = jobs.iter().map(|j| (j.server, j.protocol)).collect();
    assert_eq!(at, vec![(0, 0), (0, 2), (2, 0)]);
}
