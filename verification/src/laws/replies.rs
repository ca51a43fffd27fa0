//! Laws of settings, links, traffic and the wizard, over what the functions
//! return.
use crate::grants::{pick_sort, GrantSort};
use crate::json::Member;
use crate::locale::Locale;
use crate::server_page::{
    detail_tabs, kernel_report, known_sources, nameless_destinations, reads_live_config,
    reported_kernels, server_rows, Destination, DetailTab, ServerDetailQuery, ServerTab, TabLabel,
};
use crate::sessions::{
    user_sessions_section, user_sessions_section_at, user_top_destinations_section, Session,
    SessionView,
};
use crate::settings::{
    audit_of, geoip_update_allowed, self_test_from, self_test_of,
    settings_disaster_recovery_section, settings_geoip_section, settings_notification_language,
    settings_telegram, settings_telegram_test, DisasterRecovery, GeoipSection, SelfTest,
    SelfTestRecord, TelegramAudit, TelegramForm, TelegramSettings, TestReply,
};
use crate::share_links::{
    collect_links, ninitux_url, qr_card, qr_svg, share_link_card, sub_url, user_for_server_render,
    LinkJob, PerServerUser, QrView, RenderUser, ShareLink, ShareLinkCard, ShareServer,
};
use crate::shell::{nav_href, root_class, topbar, tweaks_inline, Topbar, Tweaks};
use crate::telemetry::{
    server_detail_hero, server_detail_resource_trend_section, server_detail_uptime_section,
    server_detail_uptime_section_at, status_tile, status_tile_with_warn, Hero, NodeHealth,
    ResourceTrend, StatusTile, UptimeSection, UptimeStat,
};
use crate::time::{days_in_month, UtcTime};
use crate::traffic::{
    axis_values, fmt_traffic_progress, nice_byte_ceiling, pick_vpn_sparkline_window,
    project_month_end, project_month_end_at, project_on, totals, traffic_per_server,
    vpn_sparkline_windows, window_hours, window_picker_section, x_axis_tick_label, ServerTraffic,
    VpnSparklineWindow, VpnStatsRow, WindowTab,
};
use crate::wizard::{
    session_cookie, ssh_user_candidate, step_one, wizard_new_submit, wizard_step2_stub,
    AddressLookup, FieldChecks, NewServer, StepOne,
};
use vstd::prelude::*;

verus! {

/// The GeoIP data is updated for the page itself, for the address bar, and for
/// a client that does not say where a request comes from; for nobody else. Its
/// section names the directory in use and says whether any data is there.
pub proof fn updates_from_elsewhere_are_refused(
    site: Option<&str>,
    r: bool,
    configured: Option<&str>,
    city: bool,
    asn: bool,
    lang: Locale,
    g: GeoipSection,
)
    requires
        call_ensures(geoip_update_allowed, (site,), r),
        call_ensures(settings_geoip_section, (configured, city, asn, lang), g),
    ensures
        site is None ==> r,
        site matches Some(s) ==> (r <==> s@ == "same-origin"@ || s@ == "none"@),
        configured matches Some(d) ==> g.dir@ == d@,
        configured is None ==> g.dir@ == "/var/lib/vpnctl/geoip"@,
        g.any_loaded <==> city || asn,
        lang is En && g.any_loaded ==> g.advice@ == "Update once a month with the "@,
        lang is En && !g.any_loaded ==> g.advice@
            == "Drop fresh MMDB files into the dir + restart the daemon, or use the "@,
{
}

/// A language is stored exactly where it is Russian or English, white space
/// around it aside.
pub proof fn only_two_languages(raw: &str, r: Result<String, &'static str>)
    requires
        call_ensures(settings_notification_language, (raw,), r),
    ensures
        r is Ok <==> crate::text::trimmed(raw@) == "ru"@ || crate::text::trimmed(raw@) == "en"@,
        r matches Ok(l) ==> l@ == crate::text::trimmed(raw@),
        r matches Err(m) ==> m@ == "notification language must be 'ru' or 'en'"@,
{
}

/// The Telegram form, its record and its test message.
pub proof fn telegram_answers(
    form: &TelegramForm,
    r: Result<TelegramSettings, &'static str>,
    s: &TelegramSettings,
    a: TelegramAudit,
    error: Option<&str>,
    t: TestReply,
)
    requires
        call_ensures(settings_telegram, (form,), r),
        call_ensures(audit_of, (s,), a),
        call_ensures(settings_telegram_test, (error,), t),
    ensures
        crate::settings::telegram_result(r, *form),
        crate::settings::telegram_audit(a, *s),
        crate::settings::test_reply(t, crate::text::opt_text(error)),
        t is Redirect <==> error is None,
{
}

/// The last self-test is shown exactly where one is recorded, by the verdict and
/// duration of its record.
pub proof fn self_test_of_the_record(
    key: &str,
    public: &str,
    last: &Option<SelfTestRecord>,
    lang: Locale,
    r: DisasterRecovery,
    record: &Option<Vec<Member>>,
    t: SelfTest,
    overall: &Option<String>,
    ms: Option<i64>,
    u: SelfTest,
)
    requires
        call_ensures(settings_disaster_recovery_section, (key, public, last, lang), r),
        call_ensures(self_test_from, (record, lang), t),
        call_ensures(self_test_of, (overall, ms, lang), u),
    ensures
        r.key_label@ == key@ + " · "@ + public@,
        r.last is Some <==> *last is Some,
        *last matches Some(e) ==> (e.payload matches Some(j) ==> (r.last matches Some(v)
            && crate::settings::recorded_test(v, crate::json::json_members(j@), lang))),
        *last matches Some(e) ==> (e.payload is None ==> (r.last matches Some(v)
            && crate::settings::self_test(v, None, None, lang))),
        *record matches Some(v) ==> crate::settings::self_test(
            t,
            crate::json::member_text(crate::json::members(v@), "overall"@),
            crate::json::member_int(crate::json::members(v@), "duration_ms"@),
            lang,
        ),
        *record is None ==> crate::settings::self_test(t, None, None, lang),
        crate::settings::self_test(
            u,
            crate::text::opt_string(*overall),
            crate::json::opt_int(ms),
            lang,
        ),
{
}

/// A subscription URL names the host of the request, or the default one, and
/// its own token; a device has one exactly where its id is valid.
pub proof fn subscription_urls(
    host: Option<&str>,
    token: &str,
    u: String,
    device: &str,
    valid: bool,
    n: Option<String>,
)
    requires
        call_ensures(sub_url, (host, token), u),
        call_ensures(ninitux_url, (device, valid), n),
    ensures
        host matches Some(h) ==> u@ == "http://"@ + h@ + "/sub/"@ + token@,
        host is None ==> u@ == "http://"@ + "127.0.0.1:18402"@ + "/sub/"@ + token@,
        n is Some <==> valid,
        n matches Some(x) ==> x@ == "https://ninitux.com/api/v1/app/config/"@ + device@,
{
}

/// A code is shown as it was rendered, and a failure with its reason; what a
/// card shows, previews and copies is one link, at the page's size and colours.
pub proof fn codes_and_cards(
    image: Result<String, String>,
    v: QrView,
    url: &str,
    q: QrView,
    link: &str,
    masked: &str,
    c: ShareLinkCard,
)
    requires
        call_ensures(qr_card, (image,), v),
        call_ensures(qr_svg, (url,), q),
        call_ensures(share_link_card, (link, masked), c),
    ensures
        image matches Ok(s) ==> (v matches QrView::Image(t) && t@ == s@),
        image matches Err(e) ==> (v matches QrView::Failed(t) && t@ == "QR generation failed: "@
            + e@),
        crate::share_links::qr_view(
            q,
            crate::share_links::qr_image(url@, 220, "#1a1611"@, "#f5efe6"@),
        ),
        c.link@ == link@,
        c.preview@ == masked@,
        crate::share_links::qr_view(
            c.qr,
            crate::share_links::qr_image(link@, 220, "#1a1611"@, "#f5efe6"@),
        ),
{
}

/// A user keeps their id and has the uuid of their first entry among the peers,
/// or their own; they are missing exactly where there are peers and they are
/// none of them.
pub proof fn users_as_their_server_knows_them(
    user: &RenderUser,
    peers: &Vec<RenderUser>,
    r: PerServerUser,
    p: int,
)
    requires
        call_ensures(user_for_server_render, (user, peers), r),
    ensures
        r.user.id@ == user.id@,
        crate::laws::links::first_peer(peers@, user.id@, p) ==> r.user.uuid@ == peers@[p].uuid@
            && !r.missing,
        (forall|k: int| 0 <= k < peers@.len() ==> (#[trigger] peers@[k]).id@ != user.id@)
            ==> r.user.uuid@ == user.uuid@ && (r.missing <==> peers@.len() > 0),
{
    crate::laws::links::uuid_among_peers(*user, peers@, p);
}

/// What was collected are the links that could be rendered, in the order of the
/// jobs, each with the id of its server.
pub proof fn collected_links(
    jobs: &Vec<LinkJob>,
    links: &Vec<Option<String>>,
    servers: &Vec<ShareServer>,
    r: Vec<ShareLink>,
    j: int,
    k: int,
)
    requires
        call_ensures(collect_links, (jobs, links, servers), r),
        0 <= j < links@.len(),
    ensures
        (exists|n: int| 0 <= n < r@.len() && (#[trigger] r@[n]).job == j) <==> links@[j] is Some,
        0 <= k < r@.len() ==> {
            &&& r@[k].job < links@.len()
            &&& links@[r@[k].job as int] is Some
            &&& r@[k].link@ == links@[r@[k].job as int]->0@
            &&& r@[k].server_id@ == servers@[jobs@[r@[k].job as int].server as int].id@
        },
        forall|a: int, b: int|
            0 <= a < b < r@.len() ==> (#[trigger] r@[a]).job < (#[trigger] r@[b]).job,
{
    let n = links@.len() as int;
    let at = crate::share_links::rendered(links@, n);
    crate::laws::links::rendered_links_are_kept(links@, n);
    assert forall|i: int| 0 <= i < r@.len() implies (#[trigger] r@[i]).job == at[i] && at.contains(
        at[i],
    ) by {
        assert(crate::share_links::link_of(r@[i], at[i], jobs@, links@, servers@));
    }
    if 0 <= k < r@.len() {
        assert(crate::share_links::link_of(r@[k], at[k], jobs@, links@, servers@));
        assert(r@[k].job == at[k]);
    }
    if links@[j] is Some {
        assert(at.contains(j));
        let i = at.index_of(j);
        assert(r@[i].job == j);
    }
}

/// The bar on top of every page links all sections, marks the one shown, and
/// offers the other language in that language.
pub proof fn bar_of_the_page(
    active: &str,
    lang: Locale,
    alerts: u64,
    r: Topbar,
    key: &str,
    h: String,
    i: int,
)
    requires
        call_ensures(topbar, (active, lang, alerts), r),
        call_ensures(nav_href, (key,), h),
    ensures
        r.links@.len() == 8,
        0 <= i < 8 ==> crate::shell::nav_link(
            r.links@[i],
            crate::shell::nav_keys()[i],
            active@,
            alerts,
        ),
        r.other != lang,
        lang is En ==> r.switch_title@ == "Переключить админку на русский"@ && r.logout@
            == "logout"@ && r.logout_title@ == "Sign out of the admin UI on this device"@
            && r.search_title@ == "Fleet-wide search — press / to focus"@ && r.search_hint@
            == "search…  /"@,
        lang is Ru ==> r.switch_title@ == "Switch admin UI to English"@ && r.logout@ == "выйти"@
            && r.logout_title@ == "Выйти из админки на этом устройстве"@ && r.search_title@
            == "Поиск по флоту — нажми / чтобы сфокусировать"@ && r.search_hint@ == "поиск…  /"@,
        key@ == "dashboard"@ ==> h@ == "/admin/"@,
        key@ != "dashboard"@ ==> h@ == "/admin/"@ + key@,
{
}

/// Looks are changed by one button per theme and accent, and shown by the class
/// of each.
pub proof fn buttons_for_the_looks(theme: &str, accent: &str, lang: Locale, r: Tweaks, c: String)
    requires
        call_ensures(tweaks_inline, (theme, accent, lang), r),
        call_ensures(root_class, (theme, accent), c),
    ensures
        lang is En ==> crate::shell::tweak_buttons(
            r.themes@,
            crate::shell::themes(),
            theme@,
            "Switch paper theme to"@,
            "var(--ink)"@,
        ) && crate::shell::tweak_buttons(
            r.accents@,
            crate::shell::accents(),
            accent@,
            "Switch accent colour to"@,
            "var(--acc)"@,
        ),
        lang is Ru ==> crate::shell::tweak_buttons(
            r.themes@,
            crate::shell::themes(),
            theme@,
            "Переключить тему бумаги на"@,
            "var(--ink)"@,
        ) && crate::shell::tweak_buttons(
            r.accents@,
            crate::shell::accents(),
            accent@,
            "Переключить акцентный цвет на"@,
            "var(--acc)"@,
        ),
        c@ == "ed"@ + crate::shell::theme_class(theme@) + crate::shell::accent_class(accent@),
{
}

/// Uptime, the latest probe and the readings of a server are those reported, at
/// the instant given and by the clock.
pub proof fn telemetry_of_the_probes(
    d: &Option<UptimeStat>,
    w: &Option<UptimeStat>,
    m: &Option<UptimeStat>,
    lang: Locale,
    now: UtcTime,
    r: Option<UptimeSection>,
    q: Option<UptimeSection>,
    latest: &Option<NodeHealth>,
    log: Option<&str>,
    h: Option<Hero>,
    rows: &Vec<NodeHealth>,
    t: Option<ResourceTrend>,
)
    requires
        call_ensures(server_detail_uptime_section_at, (d, w, m, lang, now), r),
        call_ensures(server_detail_uptime_section, (d, w, m, lang), q),
        call_ensures(server_detail_hero, (latest, log, lang), h),
        call_ensures(server_detail_resource_trend_section, (rows,), t),
    ensures
        crate::telemetry::uptime_section(r, *d, *w, *m, lang, now),
        exists|n: UtcTime|
            0 <= n.seconds() && #[trigger] crate::telemetry::uptime_section(q, *d, *w, *m, lang, n),
        h is Some <==> *latest is Some,
        h matches Some(v) ==> crate::telemetry::hero_of(
            v,
            latest->0,
            crate::text::opt_text(log),
            lang,
        ),
        t is Some <==> rows@.len() > 0,
        t matches Some(x) ==> {
            &&& x.samples == rows@.len()
            &&& x.disk@ == rows@.reverse().filter(
                |h: NodeHealth| crate::laws::telemetry::disk_known(h),
            ).map_values(|h: NodeHealth| (h.disk_used_mib->0, h.disk_total_mib->0))
            &&& x.memory@ == rows@.reverse().filter(
                |h: NodeHealth| crate::laws::telemetry::memory_known(h),
            ).map_values(|h: NodeHealth| (h.mem_available_mib->0, h.mem_total_mib->0))
            &&& x.log@ == rows@.reverse().filter(
                |h: NodeHealth| h.sing_box_log_bytes is Some,
            ).map_values(|h: NodeHealth| h.sing_box_log_bytes->0)
        },
{
    crate::laws::telemetry::readings_oldest_first(rows@, 0);
    assert(rows@.skip(0) =~= rows@);
}

/// A tile shows its label, value and colour, and warns where it is told to.
pub proof fn tiles_show_what_they_are_given(
    label: &'static str,
    value: &str,
    colour: &str,
    warn: bool,
    t: StatusTile,
    u: StatusTile,
)
    requires
        call_ensures(status_tile_with_warn, (label, value, colour, warn), t),
        call_ensures(status_tile, (label, value, colour), u),
    ensures
        t.label == label && t.value@ == value@ && t.style@ == "color: "@ + colour@ + ";"@,
        u.label == label && u.value@ == value@ && u.style@ == "color: "@ + colour@ + ";"@,
        t.warn == warn && !u.warn,
        t.warn ==> t.class@ == "ed-status-tile warn"@,
        !t.warn ==> t.class@ == "ed-status-tile"@,
        u.class@ == "ed-status-tile"@,
{
}

/// Sessions are shown one by one, none where they could not be read; addresses
/// to look up are those that a destination names, each once.
pub proof fn sessions_and_destinations(
    rows: &Option<Vec<Session>>,
    now: UtcTime,
    r: Vec<SessionView>,
    q: Vec<SessionView>,
    labels: &Vec<Option<String>>,
    a: Vec<String>,
    ip: Seq<char>,
    i: int,
)
    requires
        call_ensures(user_sessions_section_at, (rows, now), r),
        call_ensures(user_sessions_section, (rows,), q),
        call_ensures(user_top_destinations_section, (labels,), a),
    ensures
        *rows is None ==> r@.len() == 0,
        *rows matches Some(v) ==> r@.len() == v@.len() && (0 <= i < v@.len()
            ==> crate::sessions::session_view(r@[i], v@[i], now)),
        exists|n: UtcTime|
            0 <= n.seconds() && #[trigger] crate::sessions::sessions_view(q@, *rows, n),
        crate::text::texts(a@).contains(ip) <==> exists|k: int|
            0 <= k < labels@.len() && #[trigger] labels@[k] is Some && labels@[k]->0@ == ip,
        crate::text::texts(a@).no_duplicates(),
{
    let n = labels@.len() as int;
    crate::laws::origins::named_addresses_are_looked_up(labels@, n, ip);
    crate::lists::sorted_set_is_distinct(
        crate::text::texts(a@),
        crate::sessions::addresses(labels@, n),
    );
}

/// The live configuration is read on the protocols tab alone, and only where the
/// query says `live`; the grants are sorted as the query says, by id otherwise.
pub proof fn queries_are_read_exactly(
    tab: ServerTab,
    query: &ServerDetailQuery,
    r: bool,
    sort: Option<&str>,
    s: GrantSort,
)
    requires
        call_ensures(reads_live_config, (tab, query), r),
        call_ensures(pick_sort, (sort,), s),
    ensures
        r <==> tab == ServerTab::Protocols && query.drift is Some && query.drift->0@ == "live"@,
        s == GrantSort::Presence <==> sort is Some && sort->0@ == "presence"@,
        s == GrantSort::Traffic <==> sort is Some && sort->0@ == "traffic"@,
{
    reveal_strlit("presence");
    reveal_strlit("traffic");
    assert("presence"@.len() == 8 && "traffic"@.len() == 7);
}

/// Tabs keep their order, lead to their own slug, and are marked where active;
/// the rows of a server are those with its id, in order; addresses are those of
/// the connections, each once; kernels are reported as they were read.
pub proof fn parts_of_the_server_page(
    base: &str,
    active: &str,
    tabs: &Vec<TabLabel>,
    r: Vec<DetailTab>,
    i: int,
    rows: Vec<VpnStatsRow>,
    id: &str,
    own: Vec<VpnStatsRow>,
    cs: &Vec<Destination>,
    a: Vec<String>,
    b: Vec<String>,
    ip: Seq<char>,
    json: Option<&str>,
    k: Option<String>,
    ms: &Vec<Member>,
    t: String,
)
    requires
        call_ensures(detail_tabs, (base, active, tabs), r),
        call_ensures(server_rows, (rows, id), own),
        call_ensures(nameless_destinations, (cs,), a),
        call_ensures(known_sources, (cs,), b),
        call_ensures(reported_kernels, (json,), k),
        call_ensures(kernel_report, (ms,), t),
    ensures
        r@.len() == tabs@.len(),
        0 <= i < r@.len() ==> {
            &&& r@[i].href@ == base@ + "/"@ + tabs@[i].slug@
            &&& r@[i].label@ == tabs@[i].label@
            &&& tabs@[i].slug@ == active@ ==> r@[i].class@ == "ed-tab ed-tab--on"@
            &&& tabs@[i].slug@ != active@ ==> r@[i].class@ == "ed-tab"@
        },
        own@ == rows@.filter(|r: VpnStatsRow| r.server_id@ == id@),
        crate::text::texts(a@).contains(ip) <==> exists|n: int|
            0 <= n < cs@.len() && (#[trigger] cs@[n]).host@.len() == 0 && cs@[n].ip@ == ip
                && ip.len() > 0,
        crate::text::texts(b@).contains(ip) <==> exists|n: int|
            0 <= n < cs@.len() && (#[trigger] cs@[n]).source_ip@ == ip && ip.len() > 0,
        json is None ==> k is None,
        json matches Some(j) ==> (k is Some <==> crate::json::json_members(j@) is Some),
        json matches Some(j) ==> (k matches Some(s) ==> crate::server_page::version_report(
            s@,
            crate::json::json_members(j@)->0,
        )),
        crate::server_page::version_report(t@, crate::json::members(ms@)),
{
    if 0 <= i < r@.len() {
        assert(crate::server_page::tab_shown(r@[i], tabs@[i], base@, active@));
    }
    crate::laws::pages::nameless_addresses_are_looked_up(cs@, cs@.len() as int, ip);
}

/// The windows of the picker, the one a slug picks, and the hours it covers.
pub proof fn windows_and_their_hours(
    v: Vec<VpnSparklineWindow>,
    slug: Option<&str>,
    w: VpnSparklineWindow,
    h: u32,
    base: &str,
    active: &str,
    lang: Locale,
    t: Vec<WindowTab>,
)
    requires
        call_ensures(vpn_sparkline_windows, (), v),
        call_ensures(pick_vpn_sparkline_window, (slug,), w),
        call_ensures(window_hours, (slug,), h),
        call_ensures(window_picker_section, (base, active, lang), t),
    ensures
        v@.len() == 4,
        v@[0].slug@ == "24h"@ && v@[1].slug@ == "7d"@ && v@[2].slug@ == "30d"@ && v@[3].slug@
            == "all"@,
        w == crate::traffic::picked_window(crate::text::opt_text(slug)),
        v@.contains(w),
        h == w.cells * w.bucket_hours,
        slug matches Some(s) ==> {
            &&& s@ == "7d"@ ==> h == 7 * 24
            &&& s@ == "30d"@ ==> h == 30 * 24
            &&& s@ == "all"@ ==> h == 30 * 30 * 24
            &&& s@ != "7d"@ && s@ != "30d"@ && s@ != "all"@ ==> h == 24
        },
        slug is None ==> h == 24,
        crate::traffic::picker_of(t@, base@, active@, lang),
{
    crate::laws::charts::windows_by_slug(crate::text::opt_text(slug));
    let ws = crate::traffic::windows();
    assert(ws[0] == crate::traffic::day_window());
    assert(ws[1] == crate::traffic::week_window());
    assert(ws[2] == crate::traffic::month_window());
    assert(ws[3] == crate::traffic::all_window());
}

/// Axis, labels and usage texts.
pub proof fn axis_and_usage_texts(
    n: u64,
    c: u64,
    v: Vec<u64>,
    start: i64,
    hours: u32,
    offset: i32,
    l: String,
    used: u64,
    limit: u64,
    a: &str,
    b: &str,
    p: String,
    t: int,
    pct: nat,
)
    requires
        call_ensures(nice_byte_ceiling, (n,), c),
        call_ensures(axis_values, (c,), v),
        call_ensures(x_axis_tick_label, (start, hours, offset), l),
        call_ensures(fmt_traffic_progress, (used, limit, a, b), p),
        0 <= t < 5,
    ensures
        crate::traffic::nice_ceiling(n as int, c as int),
        v@.len() == 5,
        4 * v@[t] <= c * t < 4 * v@[t] + 4,
        hours == 1 ==> l@ == crate::time::calendar_text(start as int, offset as int, "%H:%M"@),
        hours == 24 ==> l@ == crate::time::calendar_text(start as int, offset as int, "%b %d"@),
        hours != 1 && hours != 24 ==> l@ == crate::time::calendar_text(
            start as int,
            offset as int,
            "%b %Y"@,
        ),
        pct <= 998 && limit > 0 && pct * limit <= used * 100 < (pct + 1) * limit ==> p@ == a@
            + " / "@ + b@ + " ("@ + crate::text::dec_text(pct) + "%)"@,
{
    let q = crate::numbers::percent(used as int, limit as int);
    crate::laws::texts::percentage(used as int, limit as int, q);
    let m = limit as int;
    let x = pct as int;
    if pct <= 998 && limit > 0 && pct * limit <= used * 100 < (pct + 1) * limit {
        if q < x {
            assert((q + 1) * m <= x * m) by (nonlinear_arith)
                requires
                    q + 1 <= x,
                    m > 0,
            ;
        } else if q > x {
            assert((x + 1) * m <= q * m) by (nonlinear_arith)
                requires
                    x + 1 <= q,
                    m > 0,
            ;
        }
    }
    assert(v@[t] == c * t / 4);
}

/// The projection keeps the pace of the month, on a given day, at a given
/// instant and by the clock; a month has its days.
pub proof fn projections_keep_the_pace(
    used: u64,
    year: i32,
    month: u32,
    day: u32,
    r: Option<u64>,
    now: UtcTime,
    s: Option<u64>,
    t: Option<u64>,
    days: u32,
)
    requires
        call_ensures(project_on, (used, year, month, day), r),
        call_ensures(project_month_end_at, (used, now), s),
        call_ensures(project_month_end, (used,), t),
        call_ensures(days_in_month, (year, month), days),
        day >= 1,
    ensures
        days == crate::time::month_days(year as int, month as int),
        r is Some <==> used > 0,
        r matches Some(p) ==> p * day <= used * days && (p < u64::MAX ==> used * days < (p + 1)
            * day),
        s == crate::traffic::month_end(used as int, now),
        exists|n: UtcTime|
            0 <= n.seconds() && t == #[trigger] crate::traffic::month_end(used as int, n),
{
    crate::time::month_days_bounds(year as int, month as int);
    crate::laws::totals::pace(used, day as int, days as int);
}

/// Totals over all rows and per server.
pub proof fn totals_of_the_rows(rows: &Vec<VpnStatsRow>, t: (u64, u64), v: Vec<ServerTraffic>)
    requires
        call_ensures(totals, (rows,), t),
        call_ensures(traffic_per_server, (rows,), v),
    ensures
        t.0 == crate::numbers::clipped(crate::traffic::up_sum(rows@)),
        t.1 == crate::numbers::clipped(crate::traffic::down_sum(rows@)),
        crate::traffic::per_server_of(v@, rows@),
{
}

/// The wizard takes a form whose fields are all right, refuses an address that
/// is taken, carries its session in a cookie of its own pages, and shows what
/// is set up only within a session.
pub proof fn steps_of_the_wizard(
    raw: &str,
    u: String,
    c: &FieldChecks,
    r: Result<NewServer, String>,
    address: &str,
    found: &AddressLookup,
    s: StepOne,
    name: &str,
    id: &str,
    k: String,
    session: &Option<NewServer>,
    t: Result<String, &'static str>,
)
    requires
        call_ensures(ssh_user_candidate, (raw,), u),
        call_ensures(wizard_new_submit, (c,), r),
        call_ensures(step_one, (address, found), s),
        call_ensures(session_cookie, (name, id), k),
        call_ensures(wizard_step2_stub, (session,), t),
    ensures
        crate::laws::texts::blank(raw@) ==> u@ == "root"@,
        !crate::laws::texts::blank(raw@) ==> u@ == crate::text::trimmed(raw@),
        crate::wizard::checked(r, *c),
        s is Duplicate <==> *found is Taken,
        s is Proceed <==> *found is Free,
        s is Failed <==> *found is Failed,
        *found matches AddressLookup::Taken(x) ==> (s matches StepOne::Duplicate(m) && m@
            == crate::wizard::duplicate_text(address@, x@)),
        k@ == name@ + "="@ + id@
            + "; HttpOnly; SameSite=Strict; Path=/admin/servers/new; Max-Age=600"@,
        t is Ok <==> *session is Some,
        *session matches Some(n) ==> (t matches Ok(x) && x@ == n.address@ + ":"@
            + crate::text::dec_text(n.ssh_port as nat)),
        t matches Err(m) ==> m@
            == "wizard session expired or missing — start over from /admin/servers/new"@,
{
    crate::laws::frame::blank_user_is_root(raw@);
}

} // verus!
