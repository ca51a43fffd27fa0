//! The page of one server: head, tabs and what each tab shows.
use crate::activity::{
    bootstrap_record, last_deploy, server_detail_gap_section,
    server_detail_live_activity_section, server_detail_live_connections_section,
    server_detail_traffic_section_at, AuditEntry, GapSection, LiveConnections,
    ServerTrafficSection, SourceFetches, TrafficBreakdown,
};
use crate::drift::{
    drift_of_probe, server_detail_drift_detail_section, server_detail_drift_section,
    server_detail_drift_summary, DeclaredProtocol, DriftDetail, DriftLiveResult, DriftSection,
    DriftSummary, PortDrift,
};
use crate::grants::{grants_tab, GrantsFacts, GrantsView, ServerName};
use crate::json::{read_members, Member};
use crate::lists::distinct_sorted;
use crate::locale::{tr, Locale};
use crate::order::{stable_order, text_before};
use crate::ports::{copy_port, Port};
use crate::presence::LiveConnection;
use crate::telemetry::{
    server_detail_hero, server_detail_resource_trend_section, server_detail_uptime_section_at,
    Hero, NodeHealth, ResourceTrend, UptimeSection, UptimeStat, LOG_ALERT_BYTES,
};
use crate::text::{cat2, cat3, dec, is_empty, join, same};
use crate::time::{utc_now, UtcTime};
use crate::traffic::{pick_vpn_sparkline_window, VpnStatsRow};
use vstd::prelude::*;

verus! {

/// Query parameters of the server page.
pub struct ServerDetailQuery {
    pub drift: Option<String>,
    pub vpn_window: Option<String>,
    pub grant_sort: Option<String>,
}

impl ServerDetailQuery {
    /// Whether the query asks to read the node's live configuration.
    pub open spec fn asks_live(self) -> bool {
        crate::text::opt_string(self.drift) == Some("live"@)
    }

    /// Whether the query asks to read the node's live configuration: only
    /// where `drift` is exactly `live`.
    pub fn drift_live(&self) -> (r: bool)
        ensures
            r == self.asks_live(),
    {
        match &self.drift {
            Some(d) => same(d.as_str(), "live"),
            None => false,
        }
    }
}

/// A tab of the server page.
#[derive(Clone, Copy, PartialEq, Eq, Structural, Debug)]
pub enum ServerTab {
    Status,
    Activity,
    Protocols,
    Grants,
    Setup,
}

impl ServerTab {
    /// The last path segment of the tab.
    pub open spec fn slug_text(self) -> &'static str {
        match self {
            ServerTab::Status => "status",
            ServerTab::Activity => "activity",
            ServerTab::Protocols => "protocols",
            ServerTab::Grants => "grants",
            ServerTab::Setup => "setup",
        }
    }

    /// The last path segment of the tab.
    pub fn slug(self) -> (r: &'static str)
        ensures
            r == self.slug_text(),
    {
        match self {
            ServerTab::Status => "status",
            ServerTab::Activity => "activity",
            ServerTab::Protocols => "protocols",
            ServerTab::Grants => "grants",
            ServerTab::Setup => "setup",
        }
    }
}

/// Different tabs have different slugs.
pub proof fn slugs_distinct(a: ServerTab, b: ServerTab)
    ensures
        a.slug_text()@ == b.slug_text()@ <==> a == b,
{
    reveal_strlit("status");
    reveal_strlit("activity");
    reveal_strlit("protocols");
    reveal_strlit("grants");
    reveal_strlit("setup");
    assert("status"@.len() == 6 && "activity"@.len() == 8 && "protocols"@.len() == 9);
    assert("grants"@.len() == 6 && "setup"@.len() == 5);
    assert("status"@[0] != "grants"@[0]);
}

/// A tab to offer.
pub struct TabLabel {
    pub slug: &'static str,
    pub label: String,
}

/// A tab as shown.
pub struct DetailTab {
    pub class: &'static str,
    pub href: String,
    pub label: String,
}

/// `t` shows the tab `l` of the page at `base`.
pub open spec fn tab_shown(
    t: DetailTab,
    l: TabLabel,
    base: Seq<char>,
    active: Seq<char>,
) -> bool {
    &&& t.class == (if l.slug@ == active {
        "ed-tab ed-tab--on"
    } else {
        "ed-tab"
    })
    &&& t.href@ == base + "/"@ + l.slug@
    &&& t.label@ == l.label@
}

/// The tabs of the page at `base`, the active one marked.
pub fn detail_tabs(base: &str, active: &str, tabs: &Vec<TabLabel>) -> (r: Vec<DetailTab>)
    ensures
        r@.len() == tabs@.len(),
        forall|i: int|
            0 <= i < r@.len() ==> tab_shown(#[trigger] r@[i], tabs@[i], base@, active@),
{
    let mut r: Vec<DetailTab> = Vec::new();
    let mut i: usize = 0;
    while i < tabs.len()
        invariant
            i <= tabs.len(),
            r@.len() == i,
            forall|j: int|
                0 <= j < i ==> tab_shown(#[trigger] r@[j], tabs@[j], base@, active@),
        decreases tabs.len() - i,
    {
        let t = &tabs[i];
        r.push(
            DetailTab {
                class: if same(t.slug, active) {
                    "ed-tab ed-tab--on"
                } else {
                    "ed-tab"
                },
                href: cat3(base, "/", t.slug),
                label: t.label.clone(),
            },
        );
        i = i + 1;
    }
    r
}

/// The label of a tab.
pub open spec fn tab_label(tab: ServerTab, drift: bool, users: nat, lang: Locale) -> Seq<char> {
    match tab {
        ServerTab::Status => crate::locale::in_language(lang, "Status", "Статус")@,
        ServerTab::Activity => crate::locale::in_language(lang, "Activity", "Активность")@,
        ServerTab::Protocols => if drift {
            crate::locale::in_language(lang, "Protocols", "Протоколы")@ + " ⚠"@
        } else {
            crate::locale::in_language(lang, "Protocols", "Протоколы")@
        },
        ServerTab::Grants => crate::locale::in_language(lang, "Grants", "Гранты")@ + " · "@
            + crate::text::dec_text(users),
        ServerTab::Setup => crate::locale::in_language(lang, "Setup", "Настройка")@,
    }
}

/// The tabs in order.
pub open spec fn tab_order() -> Seq<ServerTab> {
    seq![
        ServerTab::Status,
        ServerTab::Activity,
        ServerTab::Protocols,
        ServerTab::Grants,
        ServerTab::Setup,
    ]
}

/// `tabs` shows the five tabs of the page at `base` with `active` marked.
pub open spec fn page_tabs(
    tabs: Seq<DetailTab>,
    base: Seq<char>,
    active: ServerTab,
    drift: bool,
    users: nat,
    lang: Locale,
) -> bool {
    &&& tabs.len() == 5
    &&& forall|i: int|
        0 <= i < 5 ==> {
            let tab = tab_order()[i];
            &&& (#[trigger] tabs[i]).class == (if tab == active {
                "ed-tab ed-tab--on"
            } else {
                "ed-tab"
            })
            &&& tabs[i].href@ == base + "/"@ + tab.slug_text()@
            &&& tabs[i].label@ == tab_label(tab, drift, users, lang)
        }
}

fn server_tabs(
    base: &str,
    active: ServerTab,
    drift: bool,
    users: usize,
    lang: Locale,
) -> (r: Vec<DetailTab>)
    ensures
        page_tabs(r@, base@, active, drift, users as nat, lang),
{
    let protocols = tr(lang, "Protocols", "Протоколы");
    let n = dec(users as u64);
    let labels = vec![
        TabLabel { slug: "status", label: tr(lang, "Status", "Статус").to_owned() },
        TabLabel { slug: "activity", label: tr(lang, "Activity", "Активность").to_owned() },
        TabLabel {
            slug: "protocols",
            label: if drift {
                cat2(protocols, " ⚠")
            } else {
                protocols.to_owned()
            },
        },
        TabLabel {
            slug: "grants",
            label: cat3(tr(lang, "Grants", "Гранты"), " · ", n.as_str()),
        },
        TabLabel { slug: "setup", label: tr(lang, "Setup", "Настройка").to_owned() },
    ];
    let r = detail_tabs(base, active.slug(), &labels);
    proof {
        assert forall|i: int| 0 <= i < 5 implies {
            let tab = tab_order()[i];
            &&& (#[trigger] r@[i]).class == (if tab == active {
                "ed-tab ed-tab--on"
            } else {
                "ed-tab"
            })
            &&& r@[i].href@ == base@ + "/"@ + tab.slug_text()@
            &&& r@[i].label@ == tab_label(tab, drift, users as nat, lang)
        } by {
            let tab = tab_order()[i];
            assert(tab_shown(r@[i], labels@[i], base@, active.slug_text()@));
            assert(labels@[i].slug == tab.slug_text());
            slugs_distinct(tab, active);
        }
    }
    r
}

/// What the latest probe says of a server.
#[derive(Clone, Copy, PartialEq, Eq, Structural, Debug)]
pub enum ServerStatus {
    /// There was no probe yet.
    NoProbe,
    Up,
    Down,
    /// The probe could not tell.
    Unknown,
}

/// What the latest probe says of a server.
pub open spec fn status_of(latest: Option<NodeHealth>) -> ServerStatus {
    match latest {
        None => ServerStatus::NoProbe,
        Some(h) => match h.sing_box_active {
            Some(true) => ServerStatus::Up,
            Some(false) => ServerStatus::Down,
            None => ServerStatus::Unknown,
        },
    }
}

fn read_status(latest: &Option<NodeHealth>) -> (r: ServerStatus)
    ensures
        r == status_of(*latest),
{
    match latest {
        None => ServerStatus::NoProbe,
        Some(h) => match h.sing_box_active {
            Some(up) => if up {
                ServerStatus::Up
            } else {
                ServerStatus::Down
            },
            None => ServerStatus::Unknown,
        },
    }
}

/// Whether the page reads the node's live configuration: only the protocols
/// tab does, and only where the query asks for it.
pub fn reads_live_config(tab: ServerTab, query: &ServerDetailQuery) -> (r: bool)
    ensures
        r == (tab is Protocols && query.asks_live()),
{
    match tab {
        ServerTab::Protocols => query.drift_live(),
        _ => false,
    }
}

/// A live connection with its destination.
pub struct Destination {
    /// Name of the destination, empty if unknown.
    pub host: String,
    /// Address of the destination, empty if unknown.
    pub ip: String,
    /// Address it comes from, empty if unknown.
    pub source_ip: String,
}

/// Addresses among the first `n` destinations that have no name.
pub open spec fn nameless(cs: Seq<Destination>, n: int) -> Seq<Seq<char>>
    decreases n,
{
    if n <= 0 {
        Seq::empty()
    } else {
        let before = nameless(cs, n - 1);
        if cs[n - 1].host@.len() == 0 && cs[n - 1].ip@.len() > 0 {
            before.push(cs[n - 1].ip@)
        } else {
            before
        }
    }
}

/// Known source addresses among the first `n` connections.
pub open spec fn sources(cs: Seq<Destination>, n: int) -> Seq<Seq<char>>
    decreases n,
{
    if n <= 0 {
        Seq::empty()
    } else {
        let before = sources(cs, n - 1);
        if cs[n - 1].source_ip@.len() > 0 {
            before.push(cs[n - 1].source_ip@)
        } else {
            before
        }
    }
}

/// The distinct addresses to look up by reverse DNS: those of destinations
/// without a name.
pub fn nameless_destinations(cs: &Vec<Destination>) -> (r: Vec<String>)
    ensures
        crate::lists::sorted_set(crate::text::texts(r@), nameless(cs@, cs@.len() as int)),
{
    let mut ips: Vec<String> = Vec::new();
    let mut i: usize = 0;
    assert(crate::text::texts(ips@) =~= Seq::empty());
    while i < cs.len()
        invariant
            i <= cs.len(),
            crate::text::texts(ips@) == nameless(cs@, i as int),
        decreases cs.len() - i,
    {
        let ghost before = crate::text::texts(ips@);
        if is_empty(cs[i].host.as_str()) && !is_empty(cs[i].ip.as_str()) {
            ips.push(cs[i].ip.clone());
            assert(crate::text::texts(ips@) =~= before.push(cs@[i as int].ip@));
        }
        i = i + 1;
    }
    distinct_sorted(&ips)
}

/// The distinct known source addresses.
pub fn known_sources(cs: &Vec<Destination>) -> (r: Vec<String>)
    ensures
        crate::lists::sorted_set(crate::text::texts(r@), sources(cs@, cs@.len() as int)),
{
    let mut ips: Vec<String> = Vec::new();
    let mut i: usize = 0;
    assert(crate::text::texts(ips@) =~= Seq::empty());
    while i < cs.len()
        invariant
            i <= cs.len(),
            crate::text::texts(ips@) == sources(cs@, i as int),
        decreases cs.len() - i,
    {
        let ghost before = crate::text::texts(ips@);
        if !is_empty(cs[i].source_ip.as_str()) {
            ips.push(cs[i].source_ip.clone());
            assert(crate::text::texts(ips@) =~= before.push(cs@[i as int].source_ip@));
        }
        i = i + 1;
    }
    distinct_sorted(&ips)
}

/// The rows of one server, in order.
pub fn server_rows(rows: Vec<VpnStatsRow>, id: &str) -> (r: Vec<VpnStatsRow>)
    ensures
        r@ == crate::traffic::rows_of_server(rows@, id@),
{
    let ghost all = rows@;
    let ghost own = |r: VpnStatsRow| r.server_id@ == id@;
    let mut left = rows;
    let mut taken: Vec<VpnStatsRow> = Vec::new();
    assert(all.filter(own) =~= left@.filter(own) + taken@.reverse());
    while left.len() > 0
        invariant
            own == (|r: VpnStatsRow| r.server_id@ == id@),
            all.filter(own) == left@.filter(own) + taken@.reverse(),
        decreases left.len(),
    {
        let ghost before = left@;
        let ghost done = taken@;
        match left.pop() {
            Some(row) => {
                proof {
                    reveal(Seq::filter);
                }
                if same(row.server_id.as_str(), id) {
                    let ghost kept = row;
                    taken.push(row);
                    assert(before.filter(own) =~= left@.filter(own).push(kept));
                    assert(left@.filter(own).push(kept) + done.reverse() =~= left@.filter(own)
                        + taken@.reverse());
                } else {
                    assert(before.filter(own) =~= left@.filter(own));
                }
            },
            None => {},
        }
    }
    proof {
        reveal(Seq::filter);
        assert(left@.filter(own) =~= Seq::empty());
    }
    let ghost target = all.filter(own);
    assert(target =~= taken@.reverse());
    let mut r: Vec<VpnStatsRow> = Vec::new();
    while taken.len() > 0
        invariant
            target == r@ + taken@.reverse(),
        decreases taken.len(),
    {
        let ghost before = taken@;
        let ghost done = r@;
        match taken.pop() {
            Some(row) => {
                r.push(row);
                assert(done + before.reverse() =~= r@ + taken@.reverse());
            },
            None => {},
        }
    }
    assert(target =~= r@);
    r
}

/// `kernel version`, with a question mark for a version that is no text.
pub open spec fn version_text(m: (Seq<char>, Option<Seq<char>>, Option<int>)) -> Seq<char> {
    m.0 + " "@ + (match m.1 {
        Some(v) => v,
        None => "?"@,
    })
}

/// Texts in ascending order.
pub open spec fn text_order(s: Seq<Seq<char>>) -> spec_fn(int, int) -> bool {
    |a: int, b: int| crate::order::lex_lt(s[a], s[b])
}

/// `r` lists the reported kernels with their versions, in ascending order.
pub open spec fn version_report(
    r: Seq<char>,
    ms: Seq<(Seq<char>, Option<Seq<char>>, Option<int>)>,
) -> bool {
    let parts = ms.map_values(|m: (Seq<char>, Option<Seq<char>>, Option<int>)| version_text(m));
    exists|order: Seq<usize>| #[trigger]
        crate::order::stably_sorted(order, parts.len() as int, text_order(parts)) && r
            == crate::text::join_text(order.map_values(|i: usize| parts[i as int]), " · "@)
}

/// The reported kernels with their versions, from the members of a report.
pub fn kernel_report(members: &Vec<Member>) -> (r: String)
    ensures
        version_report(r@, crate::json::members(members@)),
{
    let ghost ms = crate::json::members(members@);
    let ghost show = |m: (Seq<char>, Option<Seq<char>>, Option<int>)| version_text(m);
    let ghost wanted = ms.map_values(show);
    let mut parts: Vec<String> = Vec::new();
    let mut i: usize = 0;
    while i < members.len()
        invariant
            i <= members.len(),
            ms == crate::json::members(members@),
            parts@.len() == i,
            forall|j: int| 0 <= j < i ==> (#[trigger] parts@[j])@ == version_text(ms[j]),
        decreases members.len() - i,
    {
        let m = &members[i];
        let version = match &m.value {
            Some(v) => v.as_str(),
            None => "?",
        };
        parts.push(cat3(m.name.as_str(), " ", version));
        assert(ms[i as int] == (
            m.name@,
            crate::text::opt_string(m.value),
            crate::json::opt_int(m.number),
        ));
        i = i + 1;
    }
    assert(crate::text::texts(parts@) =~= wanted);
    let ghost before = text_order(wanted);
    proof {
        assert forall|x: int, y: int|
            0 <= x < wanted.len() && 0 <= y < wanted.len() && #[trigger] before(
                x,
                y,
            ) implies !before(y, x) by {
            crate::order::lex_lt_asymmetric(wanted[x], wanted[y]);
        }
        assert forall|x: int, y: int, z: int|
            0 <= x < wanted.len() && 0 <= y < wanted.len() && 0 <= z < wanted.len()
                && #[trigger] before(x, z) implies #[trigger] before(x, y) || before(y, z) by {
            crate::order::lex_lt_splits(wanted[x], wanted[y], wanted[z]);
        }
    }
    let less = |a: usize, b: usize| -> (c: bool)
        requires
            a < parts@.len(),
            b < parts@.len(),
        ensures
            c == crate::order::lex_lt(parts@[a as int]@, parts@[b as int]@),
        { text_before(parts[a].as_str(), parts[b].as_str()) };
    proof {
        assert forall|a: usize, b: usize, c: bool| #[trigger]
            less.ensures((a, b), c) && a < parts@.len() && b < parts@.len() implies c == before(
            a as int,
            b as int,
        ) by {
            assert(parts@[a as int]@ == wanted[a as int]);
            assert(parts@[b as int]@ == wanted[b as int]);
        }
    }
    let order = stable_order(parts.len(), less, Ghost(before));
    let mut sorted: Vec<String> = Vec::new();
    let mut i: usize = 0;
    while i < order.len()
        invariant
            i <= order.len(),
            order@.len() == parts@.len(),
            forall|j: int| 0 <= j < order@.len() ==> #[trigger] order@[j] < parts@.len(),
            sorted@.len() == i,
            forall|j: int|
                0 <= j < i ==> (#[trigger] sorted@[j])@ == parts@[order@[j] as int]@,
        decreases order.len() - i,
    {
        let k: usize = order[i];
        sorted.push(parts[k].clone());
        i = i + 1;
    }
    let ghost pick = |i: usize| wanted[i as int];
    proof {
        assert forall|j: int| 0 <= j < order@.len() implies crate::text::texts(sorted@)[j]
            == order@.map_values(pick)[j] by {
            let k = order@[j] as int;
            assert(parts@[k]@ == wanted[k]);
        }
        assert(crate::text::texts(sorted@) =~= order@.map_values(pick));
    }
    join(&sorted, " · ")
}

/// The reported kernels with their versions, from a stored JSON report; none
/// where there is no object.
pub fn reported_kernels(json: Option<&str>) -> (r: Option<String>)
    ensures
        match (match json {
            Some(j) => crate::json::json_members(j@),
            None => None,
        }) {
            Some(ms) => r matches Some(s) && version_report(s@, ms),
            None => r is None,
        },
{
    match json {
        Some(j) => match read_members(j) {
            Some(members) => Some(kernel_report(&members)),
            None => None,
        },
        None => None,
    }
}

/// What is verified of a node's setup.
pub struct SetupChecks {
    /// A probe reached the node, so the deploy key is installed.
    pub key_ok: bool,
    /// The reported kernels.
    pub kernels: Option<String>,
    pub sing_box_ok: bool,
    pub fail2ban_ok: bool,
    pub fingerprint_ok: bool,
    pub clash_ok: bool,
    pub log_ok: bool,
    /// Position of the bootstrap record in the audit trail.
    pub bootstrap: Option<usize>,
}

/// What the setup tab is made of.
pub struct SetupFacts {
    /// The host fingerprint is pinned.
    pub fingerprint_pinned: bool,
    /// A fresh snapshot is at hand.
    pub clash_ok: bool,
    pub audit: Vec<AuditEntry>,
}

/// The stored report on kernels.
pub open spec fn versions_json(latest: Option<NodeHealth>) -> Option<Seq<char>> {
    match latest {
        Some(h) => crate::text::opt_string(h.kernel_versions_json),
        None => None,
    }
}

/// `c` is what the latest probe and the inventory say of the setup.
pub open spec fn setup_checks(c: SetupChecks, latest: Option<NodeHealth>, f: SetupFacts) -> bool {
    &&& c.key_ok == (latest is Some)
    &&& match (match versions_json(latest) {
        Some(j) => crate::json::json_members(j),
        None => None,
    }) {
        Some(ms) => c.kernels matches Some(s) && version_report(s@, ms),
        None => c.kernels is None,
    }
    &&& c.sing_box_ok == (latest matches Some(h) && h.sing_box_active == Some(true))
    &&& c.fail2ban_ok == (latest matches Some(h) && h.fail2ban_active == Some(true))
    &&& c.fingerprint_ok == f.fingerprint_pinned
    &&& c.clash_ok == f.clash_ok
    &&& c.log_ok == !(latest matches Some(h) && crate::telemetry::log_too_big(
        h.sing_box_log_bytes,
    ))
    &&& match c.bootstrap {
        Some(i) => i < f.audit@.len() && crate::activity::is_bootstrap(
            f.audit@[i as int].action@,
        ) && forall|k: int|
            0 <= k < i ==> !crate::activity::is_bootstrap((#[trigger] f.audit@[k]).action@),
        None => forall|k: int|
            0 <= k < f.audit@.len() ==> !crate::activity::is_bootstrap(
                (#[trigger] f.audit@[k]).action@,
            ),
    }
}

fn check_setup(latest: &Option<NodeHealth>, f: &SetupFacts) -> (r: SetupChecks)
    ensures
        setup_checks(r, *latest, *f),
{
    let bootstrap = bootstrap_record(&f.audit);
    match latest {
        Some(h) => {
            let json = match &h.kernel_versions_json {
                Some(j) => Some(j.as_str()),
                None => None,
            };
            SetupChecks {
                key_ok: true,
                kernels: reported_kernels(json),
                sing_box_ok: match h.sing_box_active {
                    Some(b) => b,
                    None => false,
                },
                fail2ban_ok: match h.fail2ban_active {
                    Some(b) => b,
                    None => false,
                },
                fingerprint_ok: f.fingerprint_pinned,
                clash_ok: f.clash_ok,
                log_ok: match h.sing_box_log_bytes {
                    Some(b) => b <= LOG_ALERT_BYTES,
                    None => true,
                },
                bootstrap,
            }
        },
        None => SetupChecks {
            key_ok: false,
            kernels: None,
            sing_box_ok: false,
            fail2ban_ok: false,
            fingerprint_ok: f.fingerprint_pinned,
            clash_ok: f.clash_ok,
            log_ok: true,
            bootstrap,
        },
    }
}

/// What the status tab is made of.
pub struct StatusFacts {
    pub uptime_24h: Option<UptimeStat>,
    pub uptime_7d: Option<UptimeStat>,
    pub uptime_30d: Option<UptimeStat>,
    /// Probes of the last day, newest first.
    pub trend: Vec<NodeHealth>,
}

/// What the activity tab is made of.
pub struct ActivityFacts {
    pub audit: Vec<AuditEntry>,
    pub bytes_up: u64,
    pub bytes_dn: u64,
    pub breakdown: TrafficBreakdown,
    /// Connections of a fresh snapshot.
    pub snapshot: Option<Vec<LiveConnection>>,
    pub top_sources: Vec<String>,
    pub source_users: Vec<SourceFetches>,
    /// Traffic rows of this server in the picked window.
    pub traffic: Vec<VpnStatsRow>,
}

/// What the protocols tab is made of, beyond the ports.
pub struct ProtocolsFacts {
    /// The live configuration, where it was read.
    pub live: Option<DriftLiveResult>,
}

/// What the shown tab is made of.
pub enum TabFacts {
    Status(StatusFacts),
    Activity(ActivityFacts),
    Protocols(ProtocolsFacts),
    Grants(GrantsFacts),
    Setup(SetupFacts),
}

/// A server and what is known of it.
pub struct ServerFacts {
    pub name: ServerName,
    pub ssh_port: u16,
    /// Ids of its kernels, in listing order.
    pub kernels: Vec<String>,
    pub protocols: Vec<DeclaredProtocol>,
    pub latest: Option<NodeHealth>,
    /// Size of the log of the latest probe, in words.
    pub log_text: Option<String>,
    /// Number of users with access.
    pub user_count: usize,
    /// Grants changed since the last deploy.
    pub pending_deploy: bool,
    pub tab: TabFacts,
}

/// The status tab.
pub struct StatusView {
    pub uptime: Option<UptimeSection>,
    pub drift: DriftSummary,
    pub trend: Option<ResourceTrend>,
}

/// The activity tab.
pub struct ActivityView {
    /// Position of the newest deploy in the audit trail.
    pub last_deploy: Option<usize>,
    /// Bytes of the last day.
    pub total: u64,
    pub gap: GapSection,
    pub live: LiveConnections,
    pub traffic: ServerTrafficSection,
}

/// The protocols tab.
pub struct ProtocolsView {
    pub grid: DriftSection,
    pub detail: DriftDetail,
}

/// The shown tab.
pub enum TabView {
    Status(StatusView),
    Activity(ActivityView),
    Protocols(ProtocolsView),
    Grants(GrantsView),
    Setup(SetupChecks),
}

/// The page of one server.
pub struct ServerPage {
    pub status: ServerStatus,
    /// Word before the kernels.
    pub kernels_noun: &'static str,
    /// Ids of the kernels.
    pub kernels: String,
    /// The running configuration is behind the grants.
    pub pending_deploy: bool,
    pub hero: Option<Hero>,
    pub drift: PortDrift,
    pub tabs: Vec<DetailTab>,
    pub content: TabView,
}

/// The tab that facts are for.
pub open spec fn tab_of(t: TabFacts) -> ServerTab {
    match t {
        TabFacts::Status(_) => ServerTab::Status,
        TabFacts::Activity(_) => ServerTab::Activity,
        TabFacts::Protocols(_) => ServerTab::Protocols,
        TabFacts::Grants(_) => ServerTab::Grants,
        TabFacts::Setup(_) => ServerTab::Setup,
    }
}

/// Ports of the first `n` declared protocols.
pub open spec fn declared_ports(ps: Seq<DeclaredProtocol>, n: int) -> Seq<crate::ports::PortKey>
    decreases n,
{
    if n <= 0 {
        Seq::empty()
    } else {
        declared_ports(ps, n - 1) + crate::ports::keys(ps[n - 1].ports@)
    }
}

/// The stored list of listening ports.
pub open spec fn ports_json(latest: Option<NodeHealth>) -> Option<Seq<char>> {
    match latest {
        Some(h) => crate::text::opt_string(h.listening_ports_json),
        None => None,
    }
}

/// The ports that the latest probe saw.
pub open spec fn probe_ports(latest: Option<NodeHealth>) -> Seq<crate::ports::PortKey> {
    crate::drift::seen_ports(
        match ports_json(latest) {
            Some(j) => crate::json::json_texts(j),
            None => None,
        },
    )
}

/// `v` is the status tab.
pub open spec fn status_view(
    v: StatusView,
    f: StatusFacts,
    drift: PortDrift,
    have_probe: bool,
    base: Seq<char>,
    lang: Locale,
    now: UtcTime,
) -> bool {
    &&& crate::telemetry::uptime_section(
        v.uptime,
        f.uptime_24h,
        f.uptime_7d,
        f.uptime_30d,
        lang,
        now,
    )
    &&& crate::drift::drift_summary(
        v.drift,
        drift.missing@.len() as int,
        drift.extra@.len() as int,
        have_probe,
        base,
    )
    &&& v.trend is None <==> f.trend@.len() == 0
    &&& v.trend matches Some(t) ==> {
        &&& t.disk@ == crate::telemetry::disk_readings(f.trend@, 0)
        &&& t.memory@ == crate::telemetry::memory_readings(f.trend@, 0)
        &&& t.log@ == crate::telemetry::log_readings(f.trend@, 0)
        &&& t.samples == f.trend@.len()
    }
}

/// `v` is the activity tab.
pub open spec fn activity_view(
    v: ActivityView,
    f: ActivityFacts,
    window: Option<Seq<char>>,
    sid_enc: Seq<char>,
    lang: Locale,
    now: UtcTime,
) -> bool {
    &&& match v.last_deploy {
        Some(i) => i < f.audit@.len() && f.audit@[i as int].action@ == "server.deploy"@
            && forall|k: int|
            0 <= k < i ==> (#[trigger] f.audit@[k]).action@ != "server.deploy"@,
        None => forall|k: int|
            0 <= k < f.audit@.len() ==> (#[trigger] f.audit@[k]).action@ != "server.deploy"@,
    }
    &&& v.total == crate::numbers::clipped(f.bytes_up + f.bytes_dn)
    &&& match v.gap {
        GapSection::NoData => f.breakdown.nic_samples < 2,
        GapSection::Shown { pct, colour, iface } => {
            &&& f.breakdown.nic_samples >= 2
            &&& pct == crate::activity::gap_pct(
                f.breakdown.gap_bytes,
                f.breakdown.nic_total_bytes,
            )
            &&& colour == (if pct >= 50 {
                "var(--acc)"
            } else {
                "var(--ink)"
            })
            &&& iface@ == (match f.breakdown.nic_iface {
                Some(i) => i@,
                None => "?"@,
            })
        },
    }
    &&& match f.snapshot {
        None => v.live is NoSnapshot,
        Some(cs) => v.live matches LiveConnections::Shown { total, likely } && {
            &&& total == cs@.len()
            &&& likely@.len() == f.top_sources@.len()
            &&& forall|i: int|
                0 <= i < likely@.len() ==> crate::activity::likely_user(
                    #[trigger] likely@[i],
                    f.top_sources@[i]@,
                    cs@,
                    f.source_users@,
                    lang,
                )
        },
    }
    &&& crate::activity::server_traffic_section(
        v.traffic,
        f.traffic@,
        crate::traffic::picked_window(window),
        sid_enc,
        lang,
        now,
    )
}

/// `v` is the protocols tab.
pub open spec fn protocols_view(
    v: ProtocolsView,
    f: ProtocolsFacts,
    protocols: Seq<DeclaredProtocol>,
    drift: PortDrift,
    have_probe: bool,
    armed: bool,
    sid_enc: Seq<char>,
) -> bool {
    &&& match v.grid {
        DriftSection::NoProbe => !have_probe,
        DriftSection::Grid(g) => have_probe && crate::drift::drift_grid(g, protocols, drift),
    }
    &&& if !armed {
        v.detail matches DriftDetail::Arm { href } && href@ == "/admin/servers/"@ + sid_enc
            + "/protocols?drift=live#drift-detail"@
    } else {
        match f.live {
            Some(DriftLiveResult::Read { orphans }) => if orphans@.len() > 0 {
                v.detail is Orphans
            } else {
                v.detail is Clean
            },
            _ => v.detail is Unreadable,
        }
    }
}

/// `p` is the page of a server at `now`.
pub open spec fn server_page(
    p: ServerPage,
    f: ServerFacts,
    query: ServerDetailQuery,
    lang: Locale,
    now: UtcTime,
) -> bool {
    let base = "/admin/servers/"@ + f.name.path@;
    let have_probe = f.latest is Some;
    let drifted = have_probe && (p.drift.missing@.len() > 0 || p.drift.extra@.len() > 0);
    &&& p.status == status_of(f.latest)
    &&& p.kernels_noun == (if f.kernels@.len() == 1 {
        crate::locale::in_language(lang, "kernel ", "ядро ")
    } else {
        crate::locale::in_language(lang, "kernels ", "ядра ")
    })
    &&& p.kernels@ == crate::text::join_text(crate::text::texts(f.kernels@), "+"@)
    &&& p.pending_deploy == f.pending_deploy
    &&& match f.latest {
        None => p.hero is None,
        Some(h) => p.hero matches Some(v) && crate::telemetry::hero_of(
            v,
            h,
            crate::text::opt_string(f.log_text),
            lang,
        ),
    }
    &&& crate::drift::port_drift(
        p.drift,
        probe_ports(f.latest),
        declared_ports(f.protocols@, f.protocols@.len() as int),
        f.ssh_port,
    )
    &&& page_tabs(p.tabs@, base, tab_of(f.tab), drifted, f.user_count as nat, lang)
    &&& match f.tab {
        TabFacts::Status(s) => p.content matches TabView::Status(v) && status_view(
            v,
            s,
            p.drift,
            have_probe,
            base,
            lang,
            now,
        ),
        TabFacts::Activity(a) => p.content matches TabView::Activity(v) && activity_view(
            v,
            a,
            crate::text::opt_string(query.vpn_window),
            f.name.path@,
            lang,
            now,
        ),
        TabFacts::Protocols(t) => p.content matches TabView::Protocols(v) && protocols_view(
            v,
            t,
            f.protocols@,
            p.drift,
            have_probe,
            query.asks_live(),
            f.name.path@,
        ),
        TabFacts::Grants(g) => p.content matches TabView::Grants(v) && crate::grants::grants_view(
            v,
            g,
            f.name,
            crate::text::opt_string(query.grant_sort),
            lang,
        ),
        TabFacts::Setup(s) => p.content matches TabView::Setup(c) && setup_checks(c, f.latest, s),
    }
}

fn all_ports(ps: &Vec<DeclaredProtocol>) -> (r: Vec<Port>)
    ensures
        crate::ports::keys(r@) == declared_ports(ps@, ps@.len() as int),
{
    let mut r: Vec<Port> = Vec::new();
    let mut i: usize = 0;
    assert(crate::ports::keys(r@) =~= Seq::empty());
    while i < ps.len()
        invariant
            i <= ps.len(),
            crate::ports::keys(r@) == declared_ports(ps@, i as int),
        decreases ps.len() - i,
    {
        let ports = &ps[i].ports;
        let ghost before = crate::ports::keys(r@);
        let ghost ks = crate::ports::keys(ports@);
        let mut k: usize = 0;
        assert(before + ks.take(0) =~= before);
        while k < ports.len()
            invariant
                k <= ports.len(),
                ks == crate::ports::keys(ports@),
                crate::ports::keys(r@) == before + ks.take(k as int),
            decreases ports.len() - k,
        {
            let ghost so_far = crate::ports::keys(r@);
            r.push(copy_port(&ports[k]));
            assert(crate::ports::keys(r@) =~= so_far.push(ks[k as int]));
            assert(before + ks.take(k + 1) =~= (before + ks.take(k as int)).push(ks[k as int]));
            k = k + 1;
        }
        assert(ks.take(k as int) =~= ks);
        i = i + 1;
    }
    r
}

fn as_text(s: &Option<String>) -> (r: Option<&str>)
    ensures
        crate::text::opt_text(r) == crate::text::opt_string(*s),
{
    match s {
        Some(s) => Some(s.as_str()),
        None => None,
    }
}

fn read_tab(t: &TabFacts) -> (r: ServerTab)
    ensures
        r == tab_of(*t),
{
    match t {
        TabFacts::Status(_) => ServerTab::Status,
        TabFacts::Activity(_) => ServerTab::Activity,
        TabFacts::Protocols(_) => ServerTab::Protocols,
        TabFacts::Grants(_) => ServerTab::Grants,
        TabFacts::Setup(_) => ServerTab::Setup,
    }
}

/// The page of one server at `now`.
pub fn server_detail_render_at(
    f: &ServerFacts,
    query: &ServerDetailQuery,
    lang: Locale,
    now: UtcTime,
) -> (r: ServerPage)
    ensures
        server_page(r, *f, *query, lang, now),
{
    let have_probe = f.latest.is_some();
    let base = cat2("/admin/servers/", f.name.path.as_str());
    let expected = all_ports(&f.protocols);
    let json = match &f.latest {
        Some(h) => as_text(&h.listening_ports_json),
        None => None,
    };
    let drift = drift_of_probe(json, &expected, f.ssh_port);
    let drifted = have_probe && (drift.missing.len() > 0 || drift.extra.len() > 0);
    let tabs = server_tabs(base.as_str(), read_tab(&f.tab), drifted, f.user_count, lang);
    let content = match &f.tab {
        TabFacts::Status(s) => TabView::Status(
            StatusView {
                uptime: server_detail_uptime_section_at(
                    &s.uptime_24h,
                    &s.uptime_7d,
                    &s.uptime_30d,
                    lang,
                    now,
                ),
                drift: server_detail_drift_summary(
                    &drift.missing,
                    &drift.extra,
                    have_probe,
                    base.as_str(),
                ),
                trend: server_detail_resource_trend_section(&s.trend),
            },
        ),
        TabFacts::Activity(a) => {
            let w = pick_vpn_sparkline_window(as_text(&query.vpn_window));
            TabView::Activity(
                ActivityView {
                    last_deploy: last_deploy(&a.audit),
                    total: server_detail_live_activity_section(a.bytes_up, a.bytes_dn),
                    gap: server_detail_gap_section(&a.breakdown),
                    live: server_detail_live_connections_section(
                        &a.snapshot,
                        &a.top_sources,
                        &a.source_users,
                        lang,
                    ),
                    traffic: server_detail_traffic_section_at(
                        &a.traffic,
                        w,
                        f.name.path.as_str(),
                        lang,
                        now,
                    ),
                },
            )
        },
        TabFacts::Protocols(t) => TabView::Protocols(
            ProtocolsView {
                grid: server_detail_drift_section(&f.protocols, &drift, have_probe),
                detail: server_detail_drift_detail_section(
                    f.name.path.as_str(),
                    &t.live,
                    query.drift_live(),
                ),
            },
        ),
        TabFacts::Grants(g) => TabView::Grants(
            grants_tab(g, &f.name, as_text(&query.grant_sort), lang),
        ),
        TabFacts::Setup(s) => TabView::Setup(check_setup(&f.latest, s)),
    };
    ServerPage {
        status: read_status(&f.latest),
        kernels_noun: if f.kernels.len() == 1 {
            tr(lang, "kernel ", "ядро ")
        } else {
            tr(lang, "kernels ", "ядра ")
        },
        kernels: join(&f.kernels, "+"),
        pending_deploy: f.pending_deploy,
        hero: server_detail_hero(&f.latest, as_text(&f.log_text), lang),
        drift,
        tabs,
        content,
    }
}

/// The page of one server at the current instant.
pub fn server_detail_render(f: &ServerFacts, query: &ServerDetailQuery, lang: Locale) -> (r:
    ServerPage)
    ensures
        exists|now: UtcTime|
            0 <= now.seconds() && #[trigger] server_page(r, *f, *query, lang, now),
{
    let now = utc_now();
    server_detail_render_at(f, query, lang, now)
}

/// Exactly one tab is marked active, the one that is shown.
pub proof fn one_tab_active(
    tabs: Seq<DetailTab>,
    base: Seq<char>,
    active: ServerTab,
    drift: bool,
    users: nat,
    lang: Locale,
    i: int,
)
    requires
        page_tabs(tabs, base, active, drift, users, lang),
        0 <= i < 5,
    ensures
        tabs[i].class@ == "ed-tab ed-tab--on"@ <==> tab_order()[i] == active,
{
    reveal_strlit("ed-tab ed-tab--on");
    reveal_strlit("ed-tab");
    assert("ed-tab"@.len() != "ed-tab ed-tab--on"@.len());
    let tab = tab_order()[i];
    assert(tabs[i].class == (if tab == active {
        "ed-tab ed-tab--on"
    } else {
        "ed-tab"
    }));
}

} // verus!
