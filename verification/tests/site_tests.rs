use vpnctl_admin::fleet::{
    fleet_sums_fit, monitoring, monitoring_at, AdminAlert, AlertCount, FleetFacts, FleetNode,
    KernelVersion, Thresholds,
};
use vpnctl_admin::json::Member;
use vpnctl_admin::locale::Locale;
use vpnctl_admin::redeploy::{redeploy_ok, spawn_user_servers_redeploy};
use vpnctl_admin::settings::{
    audit_of, geoip_update_allowed, self_test_from, self_test_of, settings_disaster_recovery_section,
    settings_geoip_section, settings_notification_language, settings_telegram,
    settings_telegram_test, SelfTestRecord, TelegramForm, TelegramSettings, TestReply,
    BAD_CHAT_ID, BAD_LANGUAGE, BAD_TOKEN, SETTINGS_PAGE, TELEGRAM_PAGE, TEST_HINTS,
};
use vpnctl_admin::shell::{nav_href, root_class, topbar, tweaks_inline};
use vpnctl_admin::telemetry::{NodeHealth, UptimeStat};
use vpnctl_admin::text;
use vpnctl_admin::time::UtcTime;
use vpnctl_admin::wizard::{
    session_cookie, ssh_user_candidate, step_one, wizard_new_submit, wizard_step2_stub,
    AddressLookup, FieldChecks, NewServer, StepOne, NO_SESSION,
};

fn at(secs: i64) -> UtcTime {
    UtcTime::new(secs, 0).unwrap()
}

#[test]
fn text_primitives() {
    assert_eq!(text::dec(0), "0");
    assert_eq!(text::dec(u64::MAX), "18446744073709551615");
    assert_eq!(text::dec2(7), "07");
    assert_eq!(text::dec2(123), "123");
    assert_eq!(text::trim("\u{3000} a b\t\n"), "a b");
    assert_eq!(text::trim(" \u{a0} "), "");
    assert_eq!(text::join(&vec!["a".to_string(), "b".to_string()], ", "), "a, b");
    assert!(text::contains("abc", "bc") && text::contains("", "") && !text::contains("ab", "abc"));
    assert!(text::starts_with("server.x", "server.") && !text::starts_with("serve", "server."));
    assert_eq!(text::parse_u64("+12"), Some(12));
    assert_eq!(text::parse_u64("18446744073709551615"), Some(u64::MAX));
    assert_eq!(text::parse_u64("18446744073709551616"), None);
    assert_eq!(text::parse_u64(""), None);
    assert_eq!(text::parse_u64("+"), None);
    assert_eq!(text::parse_u64(" 1"), None);
    assert!(text::same("ж", "ж") && !text::same("a", "ab"));
    assert!(text::is_empty("") && !text::is_empty(" "));
}

fn health(up: Option<bool>, log: Option<u64>, ts: i64) -> NodeHealth {
    NodeHealth {
        ts: at(ts),
        sing_box_active: up,
        fail2ban_active: None,
        disk_used_mib: None,
        disk_total_mib: None,
        mem_available_mib: None,
        mem_total_mib: None,
        load_1min_x100: None,
        sing_box_log_bytes: log,
        listening_ports_json: None,
        kernel_versions_json: None,
    }
}

fn node(id: &str, latest: Option<NodeHealth>, mem: Option<u8>, disk: Option<u8>) -> FleetNode {
    FleetNode {
        id: id.to_string(),
        path: id.to_string(),
        latest,
        mem_pct: mem,
        disk_pct: disk,
        uptime_24h: Some(UptimeStat {
            uptime_pct: None,
            total_rows: 10,
            down_rows: 0,
            last_outage_at: None,
            last_probe_at: None,
        }),
        trend: vec![],
    }
}

fn fleet() -> FleetFacts {
    let alert = |kind: &str, count| AlertCount { kind: kind.to_string(), count };
    let version = |id: &str, v: Option<&str>| KernelVersion {
        server_id: id.to_string(),
        version: v.map(|s| s.to_string()),
    };
    let recent = |kind: &str, secs, acked| AdminAlert {
        kind: kind.to_string(),
        created_at: at(secs),
        acked,
    };
    FleetFacts {
        nodes: vec![
            node("a", Some(health(Some(true), Some(600 << 20), 50)), Some(71), Some(20)),
            node("b", Some(health(Some(false), Some(600 << 20), 70)), Some(71), None),
            node("c", None, None, Some(5)),
        ],
        alerts: vec![alert("sub_access.shared", 3), alert("server.mem.pressure", 2)],
        versions: vec![
            version("a", Some("1.11")),
            version("b", Some("1.10")),
            version("gone", Some("0.1")),
            version("c", None),
        ],
        majority: Some("1.11".to_string()),
        recent_alerts: vec![
            recent("server.unreachable", 1_000_000, false),
            recent("server.mem.pressure", 1_000_000, false),
            recent("server.unreachable.again", 1_000_000 - 604_800, true),
            recent("server.unreachable.again", 1_000_001 - 604_800, true),
        ],
        thresholds: Thresholds { mem_pct: 90, disk_pct: 85, log_bytes: 1, unreachable: 3 },
        probe_interval: Some("900".to_string()),
    }
}

#[test]
fn fleet_totals() {
    assert!(fleet_sums_fit(&fleet()));
    let v = monitoring_at(&fleet(), Locale::En, at(1_000_000));
    assert_eq!((v.total, v.up, v.down, v.tick_minutes), (3, 1, 2, 15));
    assert_eq!(v.last_sweep.unwrap().secs(), 70);
    assert_eq!((v.fleet.value.as_str(), v.fleet.warn), ("1 / 3 up", true));
    assert_eq!(v.fleet.style, "color: var(--red);");
    assert_eq!((v.alerts.value.as_str(), v.alerts.warn), ("5", true));
    assert_eq!((v.open_sub_access, v.open_node), (3, 2));
    assert_eq!((v.memory.value.as_str(), v.memory.warn), ("71%", true));
    assert_eq!((v.disk.value.as_str(), v.disk.warn), ("20%", false));
    assert_eq!((v.probes.value.as_str(), v.probes.warn), ("30", false));
    assert_eq!(v.mem_note, "b · alert at 90%");
    assert_eq!(v.disk_note, "a · alert at 85%");
}

#[test]
fn fleet_thresholds_take_the_last_worst() {
    let v = monitoring_at(&fleet(), Locale::En, at(1_000_000));
    assert_eq!((v.mem_row.value.as_str(), v.mem_row.place.as_str()), ("71%", "b"));
    assert_eq!((v.mem_row.class, v.mem_row.open), ("num warn", true));
    assert_eq!((v.disk_row.class, v.disk_row.open), ("num", false));
    assert_eq!((v.log_row.value.as_str(), v.log_row.place.as_str()), ("600", "b"));
    assert_eq!(v.log_row.class, "num warn");
    assert!(!v.unreachable_open);
    assert!(v.rows[0].mem_hot && !v.rows[2].mem_hot);
    assert_eq!((v.rows[0].class, v.rows[0].href.as_str()), ("on-warn", "/admin/servers/a"));
}

#[test]
fn fleet_version_drift_and_failures() {
    let v = monitoring_at(&fleet(), Locale::En, at(1_000_000));
    assert_eq!(v.drifted.len(), 1);
    assert_eq!((v.drifted[0].node, v.drifted[0].version.as_str()), (1, "1.10"));
    assert_eq!((v.versions.value.as_str(), v.versions.warn), ("1 node(s)", true));
    let at: Vec<usize> = v.failures.iter().map(|f| f.at).collect();
    assert_eq!(at, vec![0, 3]);
    assert_eq!((v.failures[0].when.as_str(), v.failures[0].acked), ("01-12 13:46", false));
    assert!(v.failures[1].acked);
}

#[test]
fn fleet_without_nodes() {
    let mut f = fleet();
    f.nodes = vec![];
    f.alerts = vec![];
    f.probe_interval = Some("soon".to_string());
    let v = monitoring(&f, Locale::Ru);
    assert_eq!((v.total, v.up, v.tick_minutes), (0, 0, 10));
    assert!(v.last_sweep.is_none() && v.drifted.is_empty());
    assert_eq!(v.fleet.style, "color: var(--green);");
    assert_eq!(v.versions.value, "синхронно");
    assert_eq!((v.memory.value.as_str(), v.mem_row.place.as_str()), ("—", "—"));
    assert_eq!(v.mem_note, "— · алерт от 90%");
    f.probe_interval = None;
    assert_eq!(monitoring(&f, Locale::En).tick_minutes, 10);
}

#[test]
fn fleet_sums_may_not_fit() {
    let mut f = fleet();
    f.alerts[0].count = u64::MAX;
    assert!(!fleet_sums_fit(&f));
    let mut f = fleet();
    f.nodes[0].uptime_24h.as_mut().unwrap().total_rows = u64::MAX;
    assert!(!fleet_sums_fit(&f));
}

#[test]
fn notification_languages() {
    assert_eq!(settings_notification_language(" ru\n").unwrap(), "ru");
    assert_eq!(settings_notification_language("en").unwrap(), "en");
    for bad in ["", "RU", "de", "ru en"] {
        assert_eq!(settings_notification_language(bad).unwrap_err(), BAD_LANGUAGE);
    }
}

fn form(token: &str, chat: &str, proxy: &str) -> TelegramForm {
    TelegramForm {
        token: token.to_string(),
        chat_id: chat.to_string(),
        proxy_via: proxy.to_string(),
    }
}

const TOKEN: &str = "123456:abcdefghijklmn";

#[test]
fn telegram_forms_that_are_saved() {
    let s = settings_telegram(&form(&format!(" {} ", TOKEN), "-100123", " de ")).ok().unwrap();
    assert_eq!(s.token.as_deref(), Some(TOKEN));
    assert_eq!(s.chat_id.as_deref(), Some("-100123"));
    assert_eq!(s.proxy_via.as_deref(), Some("de"));
    assert!(settings_telegram(&form(TOKEN, "@chan_1", "")).is_ok());
    assert!(settings_telegram(&form("жжжжжжжжж:а", "1", "")).is_ok());
    assert!(settings_telegram(&form("123456789012345678:9", "1", "")).is_ok());
}

#[test]
fn telegram_fields_left_empty_are_stored_as_none() {
    let s = settings_telegram(&form("", "12345", "")).ok().unwrap();
    assert_eq!((s.token, s.chat_id.as_deref()), (None, Some("12345")));
    let s = settings_telegram(&form(TOKEN, " ", "")).ok().unwrap();
    assert_eq!((s.token.as_deref(), s.chat_id), (Some(TOKEN), None));
    let s = settings_telegram(&form("", "  ", "")).ok().unwrap();
    assert!(s.token.is_none() && s.chat_id.is_none() && s.proxy_via.is_none());
}

#[test]
fn telegram_forms_that_are_refused() {
    for token in [
        "short:token",
        "nocolonnocolonnocolon",
        "жжжжжжжж:а",
        "1234567890123456789:",
        "жжжжжжжжжж:",
    ] {
        assert_eq!(settings_telegram(&form(token, "1", "")).err(), Some(BAD_TOKEN));
    }
    for chat in ["-", "12a", "@", "@a b", "--1", "chan", "@ж"] {
        assert_eq!(settings_telegram(&form(TOKEN, chat, "")).err(), Some(BAD_CHAT_ID));
        assert_eq!(settings_telegram(&form("", chat, "")).err(), Some(BAD_CHAT_ID));
        assert_eq!(settings_telegram(&form("bad", chat, "")).err(), Some(BAD_TOKEN));
    }
}

#[test]
fn telegram_record_holds_no_token() {
    let s = |token: Option<&str>| TelegramSettings {
        token: token.map(|t| t.to_string()),
        chat_id: Some("7".to_string()),
        proxy_via: None,
    };
    let a = audit_of(&s(Some("secret-1")));
    let b = audit_of(&s(Some("secret-2")));
    assert!(a.token_set && b.token_set && a.chat_id_set);
    assert_eq!((a.chat_id.as_str(), a.proxy_via_server_id.as_str()), ("7", ""));
    assert_eq!(a.chat_id, b.chat_id);
    assert!(!audit_of(&s(None)).token_set);
}

#[test]
fn telegram_test_replies() {
    assert!(matches!(settings_telegram_test(None), TestReply::Redirect(u) if u == "/admin/settings"));
    assert_eq!(SETTINGS_PAGE, "/admin/settings");
    assert_eq!(TELEGRAM_PAGE, "/admin/settings/notifications#telegram-notifications");
    match settings_telegram_test(Some("ssh-then-curl: refused")) {
        TestReply::BadGateway(m) => assert_eq!(m, "test-send failed: ssh-then-curl: refused"),
        _ => panic!("failed"),
    }
    match settings_telegram_test(Some("ok:false")) {
        TestReply::BadGateway(m) => {
            assert_eq!(m, format!("test-send failed: ok:false{}", TEST_HINTS));
        }
        _ => panic!("failed"),
    }
}

#[test]
fn geoip_gate_and_section() {
    assert!(geoip_update_allowed(None));
    assert!(geoip_update_allowed(Some("same-origin")) && geoip_update_allowed(Some("none")));
    assert!(!geoip_update_allowed(Some("cross-site")) && !geoip_update_allowed(Some("same-site")));
    let v = settings_geoip_section(None, false, false, Locale::En);
    assert_eq!((v.dir.as_str(), v.any_loaded), ("/var/lib/vpnctl/geoip", false));
    assert!(v.advice.starts_with("Drop fresh MMDB"));
    let v = settings_geoip_section(Some("/g"), false, true, Locale::En);
    assert_eq!((v.dir.as_str(), v.advice), ("/g", "Update once a month with the "));
}

#[test]
fn self_test_verdicts() {
    let show = |json: &str| {
        let record = Some(SelfTestRecord { payload: Some(json.to_string()) });
        settings_disaster_recovery_section("/k", "/k.pub", &record, Locale::En).last.unwrap()
    };
    let t = show("{\"overall\":\"ok\",\"duration_ms\":812}");
    assert_eq!((t.label.as_str(), t.colour, t.duration_ms), ("PASS", "#2e7d32", Some(812)));
    let t = show("{\"overall\":\"warn\",\"duration_ms\":\"812\"}");
    assert_eq!((t.label.as_str(), t.colour, t.duration_ms), ("PASS · with warnings", "#e6a23c", None));
    assert_eq!((show("{\"overall\":\"fail\"}").label.as_str()), "FAIL");
    assert_eq!(show("{\"overall\":\"error\"}").colour, "#c62828");
    assert_eq!(show("{\"overall\":\"odd\"}").label, "odd");
    let t = show("{\"overall\":5}");
    assert_eq!((t.label.as_str(), t.colour), ("?", "var(--mute)"));
    let none = settings_disaster_recovery_section("/k", "/k.pub", &None, Locale::En);
    assert!(none.last.is_none());
    assert_eq!(none.key_label, "/k · /k.pub");
    let bare = Some(SelfTestRecord { payload: None });
    let v = settings_disaster_recovery_section("/k", "/k.pub", &bare, Locale::En);
    assert_eq!(v.last.unwrap().label, "?");
    assert_eq!(self_test_of(&Some("fail".to_string()), None, Locale::Ru).label, "ПРОВАЛ");
    let overall = Member { name: "overall".to_string(), value: Some("ok".to_string()), number: None };
    let took = Member { name: "duration_ms".to_string(), value: None, number: Some(5) };
    let t = self_test_from(&Some(vec![took, overall]), Locale::En);
    assert_eq!((t.label.as_str(), t.duration_ms), ("PASS", Some(5)));
    assert_eq!(self_test_from(&None, Locale::En).label, "?");
    assert_eq!(show("[\"overall\"]").label, "?");
}

#[test]
fn navigation() {
    assert_eq!(nav_href("dashboard"), "/admin/");
    assert_eq!(nav_href("users"), "/admin/users");
    let t = topbar("users", Locale::En, 3);
    let keys: Vec<&str> = t.links.iter().map(|l| l.key).collect();
    assert_eq!(
        keys,
        vec!["dashboard", "monitoring", "servers", "users", "audit", "alerts", "settings", "boosty"]
    );
    assert_eq!(t.links.iter().filter(|l| l.active).count(), 1);
    assert!(t.links[3].active);
    assert_eq!(t.links[5].count, Some(3));
    assert_eq!(t.links[3].count, None);
    assert!(matches!(t.other, Locale::Ru));
    assert_eq!(t.switch_title, "Переключить админку на русский");
    assert_eq!(topbar("x", Locale::Ru, 0).links[5].count, None);
    assert!(matches!(topbar("x", Locale::Ru, 0).other, Locale::En));
}

#[test]
fn looks() {
    assert_eq!(root_class("default", "default"), "ed");
    assert_eq!(root_class("ink", "plum"), "ed ed-ink ed-acc-plum");
    assert_eq!(root_class("foxed", "?"), "ed ed-foxed");
    assert_eq!(root_class("newsprint", "rust"), "ed ed-newsprint ed-acc-rust");
    assert_eq!(root_class("?", "forest"), "ed ed-acc-forest");
    let t = tweaks_inline("ink", "default", Locale::En);
    assert_eq!((t.themes.len(), t.accents.len()), (4, 4));
    assert_eq!(t.themes[3].title, "Switch paper theme to ink");
    assert!(t.themes[3].style.contains("background: var(--ink); color: var(--paper);"));
    assert!(t.themes[0].style.contains("background: transparent; color: var(--ink);"));
    assert!(t.accents[0].style.contains("background: var(--acc);"));
}

fn checks() -> FieldChecks {
    FieldChecks {
        address: Ok("198.51.100.42".to_string()),
        ssh_user: Ok("root".to_string()),
        password: None,
        ssh_port: Ok(22),
    }
}

#[test]
fn wizard_reports_the_first_bad_field() {
    let s = wizard_new_submit(&checks()).ok().unwrap();
    assert_eq!((s.address.as_str(), s.ssh_user.as_str(), s.ssh_port), ("198.51.100.42", "root", 22));
    let bad = |c: FieldChecks| wizard_new_submit(&c).err().unwrap();
    let mut c = checks();
    c.ssh_port = Err("too big".to_string());
    assert_eq!(bad(c), "invalid ssh_port — too big");
    let mut c = checks();
    c.ssh_port = Err("x".to_string());
    c.password = Some("empty".to_string());
    assert_eq!(bad(c), "invalid root password — empty");
    let mut c = checks();
    c.password = Some("x".to_string());
    c.ssh_user = Err("odd".to_string());
    assert_eq!(bad(c), "invalid ssh_user — odd");
    let mut c = checks();
    c.ssh_user = Err("x".to_string());
    c.address = Err("blank".to_string());
    assert_eq!(bad(c), "invalid address — blank");
    assert_eq!(ssh_user_candidate("  "), "root");
    assert_eq!(ssh_user_candidate(" debian "), "debian");
}

#[test]
fn wizard_guards_addresses_and_sessions() {
    match step_one("h", &AddressLookup::Taken("us".to_string())) {
        StepOne::Duplicate(m) => assert_eq!(
            m,
            "address 'h' is already registered to server 'us' — one node = one server record; edit 'us' instead of bootstrapping a duplicate"
        ),
        _ => panic!("taken"),
    }
    assert!(matches!(step_one("h", &AddressLookup::Free), StepOne::Proceed));
    assert!(matches!(step_one("h", &AddressLookup::Failed), StepOne::Failed));
    assert_eq!(
        session_cookie("n", "i"),
        "n=i; HttpOnly; SameSite=Strict; Path=/admin/servers/new; Max-Age=600"
    );
    assert_eq!(wizard_step2_stub(&None).unwrap_err(), NO_SESSION);
    let s = Some(NewServer {
        address: "h".to_string(),
        ssh_user: "root".to_string(),
        ssh_port: 2222,
    });
    assert_eq!(wizard_step2_stub(&s).unwrap(), "h:2222");
}

#[test]
fn redeploy_actions() {
    assert_eq!(spawn_user_servers_redeploy(0, "user.grant"), None);
    assert_eq!(spawn_user_servers_redeploy(2, "user.grant"), Some("user.autodeploy"));
    assert_eq!(spawn_user_servers_redeploy(1, "server.grant_all"), Some("server.autodeploy"));
    assert_eq!(spawn_user_servers_redeploy(1, "servers.x"), Some("user.autodeploy"));
    assert!(redeploy_ok(&vec![]) && !redeploy_ok(&vec!["e".to_string()]));
}
