use vpnctl_admin::activity::AuditEntry;
use vpnctl_admin::drift::{DeclaredProtocol, DriftSummary};
use vpnctl_admin::grants::{
    grants_tab, pick_sort, GrantDate, GrantSort, GrantsBody, GrantsFacts, GrantsTable, ListedUser,
    ServerName, UserBytes,
};
use vpnctl_admin::json::Member;
use vpnctl_admin::locale::Locale;
use vpnctl_admin::lookup::{fleet_lookup, server_lookup, LookupReply, ServerLookup};
use vpnctl_admin::ports::Port;
use vpnctl_admin::presence::LiveConnection;
use vpnctl_admin::protocols::{
    grant_protocol_disable, grant_protocol_enable, server_detail_protocols_section,
    stored_override, user_detail_per_protocol_grid, Delivery, GridEntry, GridPlace, HiddenFlag,
    OverrideOutcome, OverrideReply, OverrideRequest, ProtocolEntry, ProtocolHost, ProtocolState,
};
use vpnctl_admin::server_config::{
    server_detail_auto_suppress_section, server_detail_billing_section,
    server_detail_client_detour_section, server_detail_display_name_section,
    server_detail_fingerprint_section, server_detail_kernels_section,
    server_detail_naive_config_section, server_detail_push_deploy_key_section,
    server_detail_reality_config_section, server_detail_reserved_ports_section,
    server_detail_routing_policy_section, server_detail_udp_pair_section,
    server_detail_vlessws_config_section, BillingCycle, KernelEntry, Secret, ServerBilling,
    ServerRole, SuppressState,
};
use vpnctl_admin::server_page::{
    detail_tabs, kernel_report, known_sources, nameless_destinations, reads_live_config,
    reported_kernels, server_detail_render, server_detail_render_at, server_rows, Destination,
    ServerDetailQuery, ServerFacts, ServerStatus, ServerTab, SetupFacts, StatusFacts, TabFacts,
    TabLabel, TabView,
};
use vpnctl_admin::telemetry::NodeHealth;
use vpnctl_admin::time::UtcTime;
use vpnctl_admin::traffic::VpnStatsRow;

fn at(secs: i64) -> UtcTime {
    UtcTime::new(secs, 0).unwrap()
}

fn texts(v: &[&str]) -> Vec<String> {
    v.iter().map(|s| s.to_string()).collect()
}

fn query(drift: Option<&str>) -> ServerDetailQuery {
    ServerDetailQuery {
        drift: drift.map(|s| s.to_string()),
        vpn_window: None,
        grant_sort: None,
    }
}

fn health() -> NodeHealth {
    NodeHealth {
        ts: at(0),
        sing_box_active: Some(true),
        fail2ban_active: Some(false),
        disk_used_mib: None,
        disk_total_mib: None,
        mem_available_mib: None,
        mem_total_mib: None,
        load_1min_x100: None,
        sing_box_log_bytes: None,
        listening_ports_json: Some("[\"tcp/443\",\"tcp/22\"]".to_string()),
        kernel_versions_json: Some("{\"xray\":7,\"sing-box\":\"1.11\"}".to_string()),
    }
}

fn name() -> ServerName {
    ServerName { id: "de/1".to_string(), path: "de%2F1".to_string() }
}

fn facts(tab: TabFacts, latest: Option<NodeHealth>) -> ServerFacts {
    ServerFacts {
        name: name(),
        ssh_port: 22,
        kernels: texts(&["sing-box", "amneziawg"]),
        protocols: vec![DeclaredProtocol {
            id: "vless".to_string(),
            ports: vec![Port { proto: "tcp".to_string(), port: 443 }],
        }],
        latest,
        log_text: None,
        user_count: 3,
        pending_deploy: true,
        tab,
    }
}

fn status_tab() -> TabFacts {
    TabFacts::Status(StatusFacts {
        uptime_24h: None,
        uptime_7d: None,
        uptime_30d: None,
        trend: vec![],
    })
}

#[test]
fn live_drift_only_for_live() {
    assert!(query(Some("live")).drift_live());
    assert!(!query(Some("LIVE")).drift_live());
    assert!(!query(Some("")).drift_live());
    assert!(!query(None).drift_live());
    assert!(reads_live_config(ServerTab::Protocols, &query(Some("live"))));
    assert!(!reads_live_config(ServerTab::Status, &query(Some("live"))));
    assert!(!reads_live_config(ServerTab::Protocols, &query(None)));
}

#[test]
fn tab_slugs() {
    let all = [
        ServerTab::Status,
        ServerTab::Activity,
        ServerTab::Protocols,
        ServerTab::Grants,
        ServerTab::Setup,
    ];
    let slugs: Vec<&str> = all.iter().map(|t| t.slug()).collect();
    assert_eq!(slugs, vec!["status", "activity", "protocols", "grants", "setup"]);
}

#[test]
fn tabs_mark_the_active_one() {
    let tabs = vec![
        TabLabel { slug: "a", label: "A".to_string() },
        TabLabel { slug: "b", label: "B".to_string() },
    ];
    let v = detail_tabs("/x", "b", &tabs);
    assert_eq!((v[0].class, v[1].class), ("ed-tab", "ed-tab ed-tab--on"));
    assert_eq!((v[1].href.as_str(), v[1].label.as_str()), ("/x/b", "B"));
}

#[test]
fn page_without_drift() {
    let p = server_detail_render_at(&facts(status_tab(), Some(health())), &query(None), Locale::En, at(0));
    assert!(matches!(p.status, ServerStatus::Up));
    assert_eq!((p.kernels_noun, p.kernels.as_str()), ("kernels ", "sing-box+amneziawg"));
    assert!(p.pending_deploy && p.hero.is_some());
    assert!(p.drift.missing.is_empty() && p.drift.extra.is_empty());
    let labels: Vec<&str> = p.tabs.iter().map(|t| t.label.as_str()).collect();
    assert_eq!(labels, vec!["Status", "Activity", "Protocols", "Grants · 3", "Setup"]);
    assert_eq!(p.tabs.iter().filter(|t| t.class == "ed-tab ed-tab--on").count(), 1);
    assert_eq!(p.tabs[4].href, "/admin/servers/de%2F1/setup");
    match p.content {
        TabView::Status(s) => {
            assert!(s.uptime.is_none() && s.trend.is_none());
            assert!(matches!(s.drift, DriftSummary::Match));
        }
        _ => panic!("the status tab"),
    }
}

#[test]
fn page_with_drift_and_without_probe() {
    let mut h = health();
    h.sing_box_active = None;
    h.listening_ports_json = Some("[\"udp/53\"]".to_string());
    let p = server_detail_render_at(&facts(status_tab(), Some(h)), &query(None), Locale::Ru, at(0));
    assert!(matches!(p.status, ServerStatus::Unknown));
    assert_eq!(p.tabs[2].label, "Протоколы ⚠");
    assert_eq!((p.drift.missing.len(), p.drift.extra.len()), (1, 1));
    let p = server_detail_render(&facts(status_tab(), None), &query(None), Locale::En);
    assert!(matches!(p.status, ServerStatus::NoProbe));
    assert_eq!(p.tabs[2].label, "Protocols");
    assert!(p.hero.is_none());
}

#[test]
fn setup_checks_of_a_probe() {
    let audit = vec![AuditEntry {
        ts: at(0),
        actor: "admin".to_string(),
        action: "server.bootstrap".to_string(),
    }];
    let tab = TabFacts::Setup(SetupFacts { fingerprint_pinned: true, clash_ok: false, audit });
    match server_detail_render(&facts(tab, Some(health())), &query(None), Locale::En).content {
        TabView::Setup(c) => {
            assert!(c.key_ok && c.sing_box_ok && c.fingerprint_ok && c.log_ok);
            assert!(!c.fail2ban_ok && !c.clash_ok);
            assert_eq!(c.kernels.unwrap(), "sing-box 1.11 · xray ?");
            assert_eq!(c.bootstrap, Some(0));
        }
        _ => panic!("the setup tab"),
    }
}

#[test]
fn kernel_reports_are_sorted() {
    let m = |n: &str, v: Option<&str>| Member {
        name: n.to_string(),
        value: v.map(|s| s.to_string()),
        number: None,
    };
    let report = kernel_report(&vec![m("b", Some("2")), m("a", None), m("b", Some("1"))]);
    assert_eq!(report, "a ? · b 1 · b 2");
    assert_eq!(reported_kernels(Some("{}")), Some(String::new()));
    assert_eq!(reported_kernels(Some("[]")), None);
    assert_eq!(reported_kernels(Some("{")), None);
    assert_eq!(reported_kernels(None), None);
}

#[test]
fn addresses_to_look_up() {
    let d = |host: &str, ip: &str, source: &str| Destination {
        host: host.to_string(),
        ip: ip.to_string(),
        source_ip: source.to_string(),
    };
    let cs = vec![
        d("", "9.9.9.9", "1.1.1.1"),
        d("x.org", "8.8.8.8", ""),
        d("", "", "2.2.2.2"),
        d("", "7.7.7.7", "1.1.1.1"),
        d("", "9.9.9.9", ""),
    ];
    assert_eq!(nameless_destinations(&cs), texts(&["7.7.7.7", "9.9.9.9"]));
    assert_eq!(known_sources(&cs), texts(&["1.1.1.1", "2.2.2.2"]));
}

#[test]
fn rows_of_one_server() {
    let r = |id: &str, up| VpnStatsRow {
        ts: at(0),
        server_id: id.to_string(),
        upload_bytes: up,
        download_bytes: 0,
        active_connections: 0,
    };
    let v = server_rows(vec![r("a", 1), r("b", 2), r("a", 3)], "a");
    let ups: Vec<u64> = v.iter().map(|r| r.upload_bytes).collect();
    assert_eq!(ups, vec![1, 3]);
}

fn grants_facts() -> GrantsFacts {
    let u = |id: &str| ListedUser { id: id.to_string(), path: format!("{}%", id) };
    let c = |user: &str| LiveConnection {
        user: Some(user.to_string()),
        source_ip: String::new(),
    };
    GrantsFacts {
        role: ServerRole::VpnExit,
        granted: texts(&["ann", "bob", "cid", "dan"]),
        all_users: vec![u("dan"), u("eve"), u("cid"), u("bob"), u("ann")],
        pending: texts(&["cid", "cid"]),
        dates: vec![GrantDate { user: "ann".to_string(), at: Some(at(5)) }],
        connections: vec![c("bob"), c("bob"), c("ann")],
        traffic: vec![
            UserBytes { user: "dan".to_string(), bytes: 1 },
            UserBytes { user: "dan".to_string(), bytes: 70 },
            UserBytes { user: "ann".to_string(), bytes: 50 },
        ],
    }
}

fn table(query: Option<&str>) -> GrantsTable {
    match grants_tab(&grants_facts(), &name(), query, Locale::En).body {
        GrantsBody::Table(t) => t,
        _ => panic!("a table"),
    }
}

fn order(query: Option<&str>) -> Vec<usize> {
    table(query).rows.iter().map(|r| r.at).collect()
}

#[test]
fn grant_sorts_keep_pending_first() {
    assert_eq!(order(None), vec![2, 4, 3, 0]);
    assert_eq!(order(Some("id")), vec![2, 4, 3, 0]);
    assert_eq!(order(Some("whatever")), vec![2, 4, 3, 0]);
    assert_eq!(order(Some("presence")), vec![2, 3, 4, 0]);
    assert_eq!(order(Some("traffic")), vec![2, 0, 4, 3]);
    for sort in [None, Some("presence"), Some("traffic")] {
        assert!(table(sort).rows[0].pending);
    }
    assert!(matches!(pick_sort(Some("presence")), GrantSort::Presence));
    assert!(matches!(pick_sort(Some("traffic")), GrantSort::Traffic));
    assert!(matches!(pick_sort(None), GrantSort::Id));
}

#[test]
fn grant_rows_and_header() {
    let v = grants_tab(&grants_facts(), &name(), Some("presence"), Locale::En);
    assert_eq!((v.granted, v.total, v.deployed), (4, 5, 3));
    assert_eq!(v.pending_list, "cid");
    let t = table(Some("presence"));
    assert_eq!(t.ungranted, vec![1]);
    assert_eq!(t.granted_count, 4);
    assert_eq!(
        t.confirm,
        "Revoke access for all 4 granted users on server 'de/1'? Type the server id to confirm:"
    );
    assert!(t.by_presence.active && !t.by_id.active && !t.by_traffic.active);
    assert_eq!(t.by_traffic.href, "/admin/servers/de%2F1/grants?grant_sort=traffic");
    let r = &t.rows[1];
    assert_eq!((r.number.as_str(), r.class, r.conns, r.bytes), ("02", "on-green", 2, 0));
    assert_eq!(r.revoke, "/admin/servers/de%2F1/grants/bob%/revoke");
    assert_eq!(r.title, "Revoke bob's access on de/1");
    assert_eq!(t.rows[0].class, "on-warn");
    assert_eq!(t.rows[3].class, "");
    assert_eq!(t.rows[3].bytes, 70);
    assert_eq!(t.rows[2].granted_at.unwrap().secs(), 5);
    assert!(t.rows[3].granted_at.is_none());
}

#[test]
fn grants_closed_or_without_users() {
    let mut f = grants_facts();
    f.all_users = vec![];
    assert!(matches!(grants_tab(&f, &name(), None, Locale::En).body, GrantsBody::NoUsers));
    f.role = ServerRole::WorkloadOnly;
    let v = grants_tab(&f, &name(), None, Locale::En);
    assert!(matches!(v.body, GrantsBody::WorkloadOnly));
    f.granted = vec![];
    assert_eq!(grants_tab(&f, &name(), None, Locale::En).deployed, 0);
}

#[test]
fn kernels_by_rank_and_id() {
    let k = |id: &str, priority, supports: &[&str]| KernelEntry {
        id: id.to_string(),
        path: id.to_string(),
        priority,
        supports: texts(supports),
    };
    let ks = vec![k("xray", 1, &[]), k("caddy", 2, &["naive"]), k("sing-box", 1, &["vless", "tuic"])];
    let rows = server_detail_kernels_section(&ks, &texts(&["sing-box"]), "de", "de", Locale::En);
    let at: Vec<usize> = rows.iter().map(|r| r.at).collect();
    assert_eq!(at, vec![2, 0, 1]);
    assert!(rows[0].on && !rows[1].on);
    assert_eq!(rows[0].supported, "vless, tuic");
    assert_eq!(rows[0].action, "/admin/servers/de/kernels/sing-box/disable");
    assert_eq!(rows[0].title, "Remove sing-box from de.kernels. Takes effect on next deploy.");
    assert_eq!(rows[2].action, "/admin/servers/de/kernels/caddy/enable");
}

#[test]
fn routing_never_offers_the_server() {
    let all = texts(&["a", "b", "c"]);
    let r = server_detail_routing_policy_section(
        "b",
        "b",
        ServerRole::WorkloadOnly,
        Some("c"),
        &all,
        Some("loop"),
    );
    let values: Vec<&str> = r.jump_choices.iter().map(|c| c.value.as_str()).collect();
    assert_eq!(values, vec!["", "a", "c"]);
    assert!(r.jump_choices[2].selected && !r.jump_choices[0].selected);
    assert!(r.workload_only && !r.vpn_exit);
    assert_eq!(r.warning.unwrap(), "management route invalid: loop");
    let d = server_detail_client_detour_section("a", "a", None, &all);
    assert!(d.choices[0].selected);
    assert_eq!(d.choices.len(), 3);
    assert_eq!(d.action, "/admin/servers/a/client-detour");
}

#[test]
fn protocol_forms_only_where_enabled() {
    let s = |k: &str, v: &str| Secret { key: k.to_string(), value: v.to_string() };
    let secrets = vec![
        s("naive.domain", "cdn.example"),
        s("vlessws.listen_port", "8443"),
        s("vlessws.path", "p"),
        s("vless.listen_port", "4443"),
    ];
    let on = texts(&["naive", "vless-ws", "vless+reality"]);
    let n = server_detail_naive_config_section(&on, &secrets, "x").unwrap();
    assert_eq!((n.domain.as_str(), n.email.as_str()), ("cdn.example", ""));
    let w = server_detail_vlessws_config_section(&on, &secrets, "x", Locale::En).unwrap();
    assert_eq!((w.port.as_str(), w.path_minted, w.path_note), ("8443", true, " The path is set."));
    let r = server_detail_reality_config_section(&on, &secrets, "x").unwrap();
    assert_eq!((r.port.as_str(), r.action.as_str()), ("4443", "/admin/servers/x/reality-config"));
    let off = texts(&["vless"]);
    assert!(server_detail_naive_config_section(&off, &secrets, "x").is_none());
    assert!(server_detail_vlessws_config_section(&off, &secrets, "x", Locale::En).is_none());
    assert!(server_detail_reality_config_section(&off, &secrets, "x").is_none());
}

#[test]
fn billing_terms() {
    let b = ServerBilling {
        amount_cents: 1205,
        currency: "USD".to_string(),
        billing_cycle: BillingCycle::Quarterly,
        due_date: "2026-06-01".to_string(),
        auto_renew: true,
        billing_url: None,
        notes: Some(String::new()),
    };
    let v = server_detail_billing_section("x", &Some(b), Locale::Ru);
    let s = v.summary.unwrap();
    assert_eq!((s.price.as_str(), s.cycle), ("12.05 USD", "квартал (3 мес)"));
    assert!(s.notes.is_none() && s.portal.is_none());
    assert_eq!((v.amount.as_str(), v.currency.as_str()), ("12.05", "USD"));
    assert_eq!(s.advance, "/admin/servers/x/billing/advance");
    let v = server_detail_billing_section("x", &None, Locale::En);
    assert!(v.summary.is_none());
    assert_eq!((v.amount.as_str(), v.currency.as_str()), ("", "EUR"));
    assert!(matches!(v.cycle, BillingCycle::Monthly));
    assert_eq!(v.return_to, "/admin/servers/x/setup");
}

#[test]
fn switches_post_the_opposite() {
    let s = server_detail_auto_suppress_section("x", true, None);
    assert_eq!((s.switch.value, s.switch.background), ("false", "transparent"));
    assert!(matches!(s.state, SuppressState::Armed));
    let s = server_detail_auto_suppress_section("x", false, None);
    assert_eq!((s.switch.value, s.switch.colour), ("true", "var(--paper)"));
    assert!(matches!(s.state, SuppressState::Off));
    let s = server_detail_auto_suppress_section("x", true, Some("then"));
    assert!(matches!(s.state, SuppressState::Suppressed(t) if t == "then"));
    let p = server_detail_udp_pair_section("x", false);
    assert_eq!((p.value, p.action.as_str()), ("true", "/admin/servers/x/udp-pair"));
}

#[test]
fn small_forms() {
    let r = server_detail_reserved_ports_section("x", &vec![443, 2053]);
    assert_eq!((r.prefill.as_str(), r.listed.as_str()), ("443,2053", "443, 2053"));
    let d = server_detail_display_name_section("x", None, "Germany");
    assert_eq!((d.label.as_str(), d.value.as_str(), d.auto), ("Germany VLESS ~<user>", "", true));
    let k = server_detail_push_deploy_key_section("x", Some("/k"), false, "root", "h", 22, Locale::En);
    assert!(!k.reference_ok);
    assert_eq!((k.placeholder, k.target.as_str()), ("never stored", "root@h:22"));
    let k = server_detail_push_deploy_key_section("x", Some("/k"), true, "root", "h", 22, Locale::En);
    assert_eq!(k.placeholder, "blank = reference key");
    let f = server_detail_fingerprint_section("x", Some("SHA256:a"), "h", 2222);
    assert_eq!((f.current.as_deref(), f.target.as_str()), (Some("SHA256:a"), "h:2222"));
}

fn host() -> ProtocolHost {
    ProtocolHost {
        id: "de".to_string(),
        path: "de".to_string(),
        enabled: texts(&["vless", "tuic", "odd"]),
        kernels: texts(&["sing-box"]),
        kernel_supports: vec![texts(&["vless", "tuic", "trojan"])],
        hidden: vec![HiddenFlag { id: "tuic".to_string(), hidden: true }],
    }
}

#[test]
fn protocol_rows() {
    let p = |id: &str, weak| ProtocolEntry { id: id.to_string(), path: id.to_string(), weak };
    let ps = vec![p("vless", false), p("tuic", false), p("odd", true), p("trojan", false), p("ssh", false)];
    let rows = server_detail_protocols_section(&ps, &host(), Locale::En);
    match &rows[0].state {
        ProtocolState::On { disable, hide } => {
            assert_eq!(disable.action, "/admin/servers/de/protocols/vless/disable");
            assert_eq!(
                disable.title,
                "Remove vless from de.enabled_protocols. Takes effect on next deploy."
            );
            assert!(hide.title.starts_with("Stop emitting vless in this server's"));
        }
        _ => panic!("on"),
    }
    assert!(matches!(&rows[1].state, ProtocolState::Hidden { unhide, .. }
        if unhide.action == "/admin/servers/de/protocols/tuic/unhide"));
    assert!(matches!(rows[2].state, ProtocolState::Stray { hidden: false, .. }));
    assert_eq!(rows[2].style, "flex: 1; color: var(--mute); font-size: 11px;");
    assert_eq!(rows[2].unsupported.as_deref(), Some("(not supported by kernel sing-box)"));
    assert!(matches!(&rows[3].state, ProtocolState::Off { enable }
        if enable.action.ends_with("/trojan/enable")));
    assert!(matches!(rows[4].state, ProtocolState::Incompatible));
    let mut two = host();
    two.kernels = texts(&["a", "b"]);
    two.kernel_supports = vec![];
    let rows = server_detail_protocols_section(&ps, &two, Locale::En);
    assert_eq!(
        rows[0].unsupported.as_deref(),
        Some("(not supported by any kernel on this server: a, b)")
    );
}

#[test]
fn delivery_needs_neither_flag() {
    let e = |id: &str, hidden, blocked| GridEntry {
        id: id.to_string(),
        path: id.to_string(),
        hidden,
        blocked,
        weak: false,
    };
    let es = vec![e("d", false, false), e("c", false, true), e("b", true, false), e("a", true, true)];
    let place = GridPlace {
        user: "ann".to_string(),
        user_path: "ann".to_string(),
        server: "de".to_string(),
        server_path: "de".to_string(),
    };
    let rows = user_detail_per_protocol_grid(&es, &place, Locale::En);
    let at: Vec<usize> = rows.iter().map(|r| r.at).collect();
    assert_eq!(at, vec![3, 2, 1, 0]);
    assert!(matches!(&rows[0].delivery, Delivery::HiddenAndBlocked { enable }
        if enable == "/admin/users/ann/grants/de/protocols/a/enable"));
    assert!(matches!(rows[1].delivery, Delivery::Hidden));
    assert!(matches!(&rows[2].delivery, Delivery::Blocked { title, .. }
        if title == "Deliver c to ann again on de"));
    match &rows[3].delivery {
        Delivery::Delivered { disable, title } => {
            assert_eq!(disable, "/admin/users/ann/grants/de/protocols/d/disable");
            assert_eq!(
                title,
                "Stop delivering d to ann on de (per-user override; other users keep getting it)"
            );
        }
        _ => panic!("delivered"),
    }
    assert_eq!(rows[3].style, "flex: 1; color: var(--ink); font-size: 11px;");
}

#[test]
fn override_replies() {
    match grant_protocol_disable(&OverrideOutcome::Saved, "ann%20x") {
        OverrideReply::Redirect(url) => {
            assert_eq!(url, "/admin/users/ann%20x/access#server-access");
        }
        _ => panic!("saved"),
    }
    let bad = OverrideOutcome::Invalid("no grant".to_string());
    assert!(matches!(grant_protocol_enable(&bad, "x"), OverrideReply::BadRequest(m) if m == "no grant"));
    let failed = grant_protocol_enable(&OverrideOutcome::Failed, "x");
    assert!(matches!(failed, OverrideReply::InternalError));
    assert!(stored_override(&OverrideRequest::Disable));
    assert!(!stored_override(&OverrideRequest::Enable));
}

#[test]
fn pages_that_cannot_be_made() {
    assert!(matches!(server_lookup(&ServerLookup::Found, "de"), LookupReply::Proceed));
    assert!(matches!(server_lookup(&ServerLookup::Failed, "de"), LookupReply::InternalError));
    match server_lookup(&ServerLookup::Missing, "d'e") {
        LookupReply::NotFound(msg) => assert_eq!(msg, "no such server 'd'e'"),
        _ => panic!("missing"),
    }
    assert!(matches!(fleet_lookup(true), LookupReply::Proceed));
    assert!(matches!(fleet_lookup(false), LookupReply::InternalError));
}
