//! Activity of a server: live connections, traffic and its audit trail.
use crate::locale::{tr, Locale};
use crate::numbers::clip;
use crate::presence::LiveConnection;
use crate::text::{cat3, cat4, dec, is_empty, same, starts_with};
use crate::time::{utc_now, UtcTime};
use crate::traffic::{totals, window_picker_section, VpnSparklineWindow, VpnStatsRow, WindowTab};
use vstd::prelude::*;

verus! {

/// Rows of each live table.
pub const TOP_N: usize = 10;

/// Bytes in both directions, clipped to 64 bits.
pub fn server_detail_live_activity_section(bytes_up: u64, bytes_dn: u64) -> (r: u64)
    ensures
        r == crate::numbers::clipped(bytes_up + bytes_dn),
{
    bytes_up.saturating_add(bytes_dn)
}

/// Interface counters against attributed traffic.
pub struct TrafficBreakdown {
    pub nic_total_bytes: u64,
    pub attributed_bytes: u64,
    pub gap_bytes: u64,
    pub nic_samples: u64,
    pub nic_iface: Option<String>,
}

/// The traffic accounting section.
pub enum GapSection {
    /// A difference takes two samples.
    NoData,
    Shown {
        /// Percent of real traffic that nobody is charged for.
        pct: u64,
        colour: &'static str,
        iface: String,
    },
}

/// The gap as percent of all traffic, at most 100; 0 of no traffic.
pub open spec fn gap_pct(gap: u64, total: u64) -> int {
    if total == 0 {
        0
    } else {
        let p = crate::numbers::clipped(gap * 100) as int / (total as int);
        if p > 100 {
            100
        } else {
            p
        }
    }
}

/// How much of the real traffic is not attributed.
pub fn server_detail_gap_section(t: &TrafficBreakdown) -> (r: GapSection)
    ensures
        match r {
            GapSection::NoData => t.nic_samples < 2,
            GapSection::Shown { pct, colour, iface } => {
                &&& t.nic_samples >= 2
                &&& pct == gap_pct(t.gap_bytes, t.nic_total_bytes)
                &&& pct <= 100
                &&& colour == (if pct >= 50 {
                    "var(--acc)"
                } else {
                    "var(--ink)"
                })
                &&& iface@ == (match t.nic_iface {
                    Some(i) => i@,
                    None => "?"@,
                })
            },
        },
{
    if t.nic_samples < 2 {
        return GapSection::NoData;
    }
    let pct: u64 = if t.nic_total_bytes == 0 {
        0
    } else {
        let p: u64 = clip(t.gap_bytes as u128 * 100) / t.nic_total_bytes;
        if p > 100 {
            100
        } else {
            p
        }
    };
    GapSection::Shown {
        pct,
        colour: if pct >= 50 {
            "var(--acc)"
        } else {
            "var(--ink)"
        },
        iface: match &t.nic_iface {
            Some(i) => i.clone(),
            None => "?".to_owned(),
        },
    }
}

/// A user and how often they fetched from an address.
pub struct FetchHits {
    pub user: String,
    pub hits: u64,
}

/// Users that fetched from an address, most fetches first.
pub struct SourceFetches {
    pub ip: String,
    pub users: Vec<FetchHits>,
}

/// Who is probably behind a source address.
pub enum LikelyUser {
    /// Named by the node itself.
    Log { user: String },
    /// Guessed from subscription fetches.
    Sub {
        user: String,
        /// How well founded the guess is.
        title: String,
        /// Further candidates.
        more: usize,
    },
    Unknown,
}

/// Connections from `ip` that the node attributes to `user`.
pub open spec fn attributed_to(cs: Seq<LiveConnection>, ip: Seq<char>, user: Seq<char>) -> int
    decreases cs.len(),
{
    if cs.len() == 0 {
        0
    } else {
        attributed_to(cs.drop_last(), ip, user) + (if cs.last().source_ip@ == ip
            && crate::text::opt_string(cs.last().user) == Some(user) {
            1int
        } else {
            0
        })
    }
}

/// `user` has the most attributed connections from `ip`, and at least one.
pub open spec fn busiest(cs: Seq<LiveConnection>, ip: Seq<char>, user: Seq<char>) -> bool {
    &&& ip.len() > 0
    &&& attributed_to(cs, ip, user) > 0
    &&& forall|other: Seq<char>| #[trigger]
        attributed_to(cs, ip, other) <= attributed_to(cs, ip, user)
}

/// No connection from `ip` is attributed to anybody.
pub open spec fn unattributed_ip(cs: Seq<LiveConnection>, ip: Seq<char>) -> bool {
    ip.len() == 0 || forall|i: int|
        0 <= i < cs.len() && (#[trigger] cs[i]).source_ip@ == ip ==> cs[i].user is None
}

/// The fetches from `ip`, from the first entry for it.
pub open spec fn fetches_from(map: Seq<SourceFetches>, ip: Seq<char>) -> Seq<FetchHits>
    decreases map.len(),
{
    if map.len() == 0 {
        Seq::empty()
    } else if map[0].ip@ == ip {
        map[0].users@
    } else {
        fetches_from(map.skip(1), ip)
    }
}

/// How well founded a guess from `hits` fetches is.
pub open spec fn sub_title(hits: u64, lang: Locale) -> Seq<char> {
    crate::locale::in_language(
        lang,
        "Source: subscription fetches over the last 7 days. Best-guess (NAT can collide).",
        "Источник: запросы подписки за 7 дней. Эвристика (NAT может коллидировать).",
    )@ + " ("@ + crate::text::dec_text(hits as nat) + " "@ + crate::locale::in_language(
        lang,
        "fetches from this IP",
        "запросов с этого IP",
    )@ + ")"@
}

/// `u` is who is probably behind `ip`: the busiest user the node names, else
/// the one with the most subscription fetches from it.
pub open spec fn likely_user(
    u: LikelyUser,
    ip: Seq<char>,
    cs: Seq<LiveConnection>,
    map: Seq<SourceFetches>,
    lang: Locale,
) -> bool {
    let fetches = fetches_from(map, ip);
    match u {
        LikelyUser::Log { user } => busiest(cs, ip, user@),
        LikelyUser::Sub { user, title, more } => {
            &&& unattributed_ip(cs, ip)
            &&& fetches.len() > 0
            &&& user@ == fetches[0].user@
            &&& title@ == sub_title(fetches[0].hits, lang)
            &&& more == fetches.len() - 1
        },
        LikelyUser::Unknown => unattributed_ip(cs, ip) && fetches.len() == 0,
    }
}

proof fn lemma_attributed_bounds(cs: Seq<LiveConnection>, ip: Seq<char>, user: Seq<char>)
    ensures
        0 <= attributed_to(cs, ip, user) <= cs.len(),
        attributed_to(cs, ip, user) > 0 ==> exists|i: int|
            0 <= i < cs.len() && (#[trigger] cs[i]).source_ip@ == ip && crate::text::opt_string(
                cs[i].user,
            ) == Some(user),
    decreases cs.len(),
{
    if cs.len() > 0 {
        lemma_attributed_bounds(cs.drop_last(), ip, user);
        if cs.last().source_ip@ == ip && crate::text::opt_string(cs.last().user) == Some(user) {
            assert(cs[cs.len() - 1] == cs.last());
        } else if attributed_to(cs, ip, user) > 0 {
            let i = choose|i: int|
                0 <= i < cs.drop_last().len() && (#[trigger] cs.drop_last()[i]).source_ip@ == ip
                    && crate::text::opt_string(cs.drop_last()[i].user) == Some(user);
            assert(cs[i] == cs.drop_last()[i]);
        }
    }
}

proof fn lemma_attributed_at(cs: Seq<LiveConnection>, i: int)
    requires
        0 <= i < cs.len(),
        cs[i].user is Some,
    ensures
        attributed_to(cs, cs[i].source_ip@, cs[i].user->0@) > 0,
    decreases cs.len(),
{
    let ip = cs[i].source_ip@;
    let user = cs[i].user->0@;
    lemma_attributed_bounds(cs.drop_last(), ip, user);
    if i < cs.len() - 1 {
        assert(cs.drop_last()[i] == cs[i]);
        lemma_attributed_at(cs.drop_last(), i);
    }
}

fn count_attributed(cs: &Vec<LiveConnection>, ip: &str, user: &str) -> (r: usize)
    ensures
        r == attributed_to(cs@, ip@, user@),
{
    let mut n: usize = 0;
    let mut i: usize = 0;
    while i < cs.len()
        invariant
            i <= cs.len(),
            n <= i,
            n == attributed_to(cs@.take(i as int), ip@, user@),
        decreases cs.len() - i,
    {
        assert(cs@.take(i + 1).drop_last() =~= cs@.take(i as int));
        let own = match &cs[i].user {
            Some(u) => same(u.as_str(), user),
            None => false,
        };
        if own && same(cs[i].source_ip.as_str(), ip) {
            n = n + 1;
        }
        i = i + 1;
    }
    assert(cs@.take(i as int) =~= cs@);
    n
}

/// The user with the most connections from `ip`, as the node attributes them.
fn log_winner(cs: &Vec<LiveConnection>, ip: &str) -> (r: Option<String>)
    ensures
        match r {
            Some(u) => busiest(cs@, ip@, u@),
            None => unattributed_ip(cs@, ip@),
        },
{
    if is_empty(ip) {
        return None;
    }
    let mut best: Option<usize> = None;
    let mut most: usize = 0;
    let mut i: usize = 0;
    while i < cs.len()
        invariant
            i <= cs.len(),
            match best {
                None => most == 0 && forall|k: int|
                    0 <= k < i && (#[trigger] cs@[k]).source_ip@ == ip@ ==> cs@[k].user is None,
                Some(b) => {
                    &&& b < cs.len()
                    &&& cs@[b as int].user is Some
                    &&& most == attributed_to(cs@, ip@, cs@[b as int].user->0@)
                    &&& most > 0
                },
            },
            forall|k: int|
                0 <= k < i && (#[trigger] cs@[k]).source_ip@ == ip@ && cs@[k].user is Some
                    ==> attributed_to(cs@, ip@, cs@[k].user->0@) <= most,
        decreases cs.len() - i,
    {
        if same(cs[i].source_ip.as_str(), ip) {
            match &cs[i].user {
                Some(u) => {
                    let n: usize = count_attributed(cs, ip, u.as_str());
                    proof {
                        lemma_attributed_at(cs@, i as int);
                    }
                    if n > most {
                        most = n;
                        best = Some(i);
                    }
                },
                None => {},
            }
        }
        i = i + 1;
    }
    match best {
        None => None,
        Some(b) => {
            proof {
                assert forall|other: Seq<char>| #[trigger]
                    attributed_to(cs@, ip@, other) <= most by {
                    lemma_attributed_bounds(cs@, ip@, other);
                }
            }
            match &cs[b].user {
                Some(u) => Some(u.clone()),
                None => None,
            }
        },
    }
}

fn fetch_index(map: &Vec<SourceFetches>, ip: &str) -> (r: Option<usize>)
    ensures
        match r {
            Some(i) => i < map.len() && fetches_from(map@, ip@) == map@[i as int].users@,
            None => fetches_from(map@, ip@) == Seq::<FetchHits>::empty(),
        },
{
    let mut i: usize = 0;
    assert(map@.skip(0) =~= map@);
    while i < map.len()
        invariant
            i <= map.len(),
            fetches_from(map@, ip@) == fetches_from(map@.skip(i as int), ip@),
        decreases map.len() - i,
    {
        assert(map@.skip(i as int).skip(1) =~= map@.skip(i + 1));
        if same(map[i].ip.as_str(), ip) {
            return Some(i);
        }
        i = i + 1;
    }
    None
}

fn guess_user(
    ip: &str,
    cs: &Vec<LiveConnection>,
    map: &Vec<SourceFetches>,
    lang: Locale,
) -> (r: LikelyUser)
    ensures
        likely_user(r, ip@, cs@, map@, lang),
{
    match log_winner(cs, ip) {
        Some(user) => LikelyUser::Log { user },
        None => match fetch_index(map, ip) {
            None => LikelyUser::Unknown,
            Some(i) => {
                let users = &map[i].users;
                if users.len() == 0 {
                    LikelyUser::Unknown
                } else {
                    let hits = dec(users[0].hits);
                    let head = cat3(
                        tr(
                            lang,
                            "Source: subscription fetches over the last 7 days. Best-guess (NAT can collide).",
                            "Источник: запросы подписки за 7 дней. Эвристика (NAT может коллидировать).",
                        ),
                        " (",
                        hits.as_str(),
                    );
                    LikelyUser::Sub {
                        user: users[0].user.clone(),
                        title: cat4(
                            head.as_str(),
                            " ",
                            tr(lang, "fetches from this IP", "запросов с этого IP"),
                            ")",
                        ),
                        more: users.len() - 1,
                    }
                }
            },
        },
    }
}

/// The live connections section.
pub enum LiveConnections {
    /// The poller holds no fresh snapshot of the server.
    NoSnapshot,
    Shown {
        /// Connections in the snapshot.
        total: usize,
        /// Who is probably behind each of the top sources.
        likely: Vec<LikelyUser>,
    },
}

/// The connections of a fresh snapshot with the probable users behind the
/// addresses `top_sources`.
pub fn server_detail_live_connections_section(
    snapshot: &Option<Vec<LiveConnection>>,
    top_sources: &Vec<String>,
    source_user_map: &Vec<SourceFetches>,
    lang: Locale,
) -> (r: LiveConnections)
    ensures
        match *snapshot {
            None => r is NoSnapshot,
            Some(cs) => r matches LiveConnections::Shown { total, likely } && {
                &&& total == cs@.len()
                &&& likely@.len() == top_sources@.len()
                &&& forall|i: int|
                    0 <= i < likely@.len() ==> likely_user(
                        #[trigger] likely@[i],
                        top_sources@[i]@,
                        cs@,
                        source_user_map@,
                        lang,
                    )
            },
        },
{
    let cs = match snapshot {
        None => {
            return LiveConnections::NoSnapshot;
        },
        Some(cs) => cs,
    };
    let mut likely: Vec<LikelyUser> = Vec::new();
    let mut i: usize = 0;
    while i < top_sources.len()
        invariant
            i <= top_sources.len(),
            likely@.len() == i,
            forall|k: int|
                0 <= k < i ==> likely_user(
                    #[trigger] likely@[k],
                    top_sources@[k]@,
                    cs@,
                    source_user_map@,
                    lang,
                ),
        decreases top_sources.len() - i,
    {
        likely.push(guess_user(top_sources[i].as_str(), cs, source_user_map, lang));
        i = i + 1;
    }
    LiveConnections::Shown { total: cs.len(), likely }
}

/// The server traffic section.
pub struct ServerTrafficSection {
    pub window_label: &'static str,
    pub picker: Vec<WindowTab>,
    pub up: u64,
    pub down: u64,
    /// Bytes per cell, oldest first.
    pub series: Vec<u128>,
    /// Whether any cell has traffic.
    pub has_data: bool,
}

/// The cell that `ts` falls in when the newest cell ends `now`; what is older
/// than the window falls in the oldest cell, what is to come in the newest.
pub open spec fn clamped_cell(now: UtcTime, ts: UtcTime, w: VpnSparklineWindow) -> int {
    let secs = crate::time::whole_seconds(now.stamp() - ts.stamp());
    let age = if secs > 0 {
        secs
    } else {
        0
    };
    let back = age / (w.bucket_hours * 3600);
    if back >= w.cells {
        0
    } else {
        w.cells - 1 - back
    }
}

/// Bytes in cell `i` over the first `n` rows.
pub open spec fn bytes_in_cell(
    rows: Seq<VpnStatsRow>,
    now: UtcTime,
    w: VpnSparklineWindow,
    i: int,
    n: int,
) -> int
    decreases n,
{
    if n <= 0 {
        0
    } else {
        bytes_in_cell(rows, now, w, i, n - 1) + (if clamped_cell(now, rows[n - 1].ts, w) == i {
            crate::numbers::clipped(rows[n - 1].upload_bytes + rows[n - 1].download_bytes) as int
        } else {
            0
        })
    }
}

/// Whether any cell has traffic.
pub open spec fn any_bytes(s: Seq<u128>) -> bool {
    exists|i: int| 0 <= i < s.len() && #[trigger] s[i] > 0
}

/// Bytes per cell; all zero for a window of no length.
pub open spec fn server_series(
    s: Seq<u128>,
    rows: Seq<VpnStatsRow>,
    now: UtcTime,
    w: VpnSparklineWindow,
) -> bool {
    &&& s.len() == w.cells
    &&& forall|i: int|
        0 <= i < s.len() ==> #[trigger] s[i] == (if w.bucket_hours > 0 {
            bytes_in_cell(rows, now, w, i, rows.len() as int)
        } else {
            0
        })
}

/// `v` shows the rows of a server in window `w`.
pub open spec fn server_traffic_section(
    v: ServerTrafficSection,
    rows: Seq<VpnStatsRow>,
    w: VpnSparklineWindow,
    sid_enc: Seq<char>,
    lang: Locale,
    now: UtcTime,
) -> bool {
    &&& v.window_label == crate::locale::in_language(lang, w.label_en, w.label_ru)
    &&& crate::traffic::picker_of(
        v.picker@,
        "/admin/servers/"@ + sid_enc + "/activity"@,
        w.slug@,
        lang,
    )
    &&& v.up == crate::numbers::clipped(crate::traffic::up_sum(rows))
    &&& v.down == crate::numbers::clipped(crate::traffic::down_sum(rows))
    &&& server_series(v.series@, rows, now, w)
    &&& v.has_data == any_bytes(v.series@)
}

proof fn lemma_cell_bounds(
    rows: Seq<VpnStatsRow>,
    now: UtcTime,
    w: VpnSparklineWindow,
    i: int,
    n: int,
)
    requires
        0 <= n,
    ensures
        0 <= bytes_in_cell(rows, now, w, i, n) <= n * 0xffff_ffff_ffff_ffff,
    decreases n,
{
    if n > 0 {
        lemma_cell_bounds(rows, now, w, i, n - 1);
        assert(n * 0xffff_ffff_ffff_ffff == (n - 1) * 0xffff_ffff_ffff_ffff
            + 0xffff_ffff_ffff_ffff) by (nonlinear_arith);
    }
}

fn clamped_index(now: &UtcTime, ts: &UtcTime, w: VpnSparklineWindow) -> (r: usize)
    requires
        w.bucket_hours > 0,
        w.cells > 0,
    ensures
        r == clamped_cell(*now, *ts, w),
        r < w.cells,
{
    let secs: i64 = now.seconds_since(ts);
    let age: u64 = if secs > 0 {
        secs as u64
    } else {
        0
    };
    let bucket: u64 = w.bucket_hours as u64 * 3600;
    let back: u64 = age / bucket;
    proof {
        vstd::arithmetic::div_mod::lemma_div_pos_is_pos(age as int, bucket as int);
    }
    if back >= w.cells as u64 {
        0
    } else {
        (w.cells as u64 - 1 - back) as usize
    }
}

/// The traffic of the server with path-encoded id `sid_enc` in window `w`
/// that ends `now`.
pub fn server_detail_traffic_section_at(
    rows: &Vec<VpnStatsRow>,
    w: VpnSparklineWindow,
    sid_enc: &str,
    lang: Locale,
    now: UtcTime,
) -> (r: ServerTrafficSection)
    ensures
        server_traffic_section(r, rows@, w, sid_enc@, lang, now),
{
    let url = cat3("/admin/servers/", sid_enc, "/activity");
    let picker = window_picker_section(url.as_str(), w.slug, lang);
    let (up, down): (u64, u64) = totals(rows);
    let cells: usize = w.cells as usize;
    let mut series: Vec<u128> = vec![0u128; cells];
    if w.bucket_hours > 0 && cells > 0 {
        let mut k: usize = 0;
        while k < rows.len()
            invariant
                k <= rows.len(),
                w.bucket_hours > 0,
                w.cells > 0,
                series@.len() == w.cells,
                forall|i: int|
                    0 <= i < series@.len() ==> #[trigger] series@[i] == bytes_in_cell(
                        rows@,
                        now,
                        w,
                        i,
                        k as int,
                    ),
            decreases rows.len() - k,
        {
            let at: usize = clamped_index(&now, &rows[k].ts, w);
            let bytes: u64 = rows[k].upload_bytes.saturating_add(rows[k].download_bytes);
            proof {
                lemma_cell_bounds(rows@, now, w, at as int, k as int);
                assert(series@[at as int] == bytes_in_cell(rows@, now, w, at as int, k as int));
                assert(k * 0xffff_ffff_ffff_ffff <= 0xffff_ffff_ffff_ffff * 0xffff_ffff_ffff_ffff)
                    by (nonlinear_arith)
                    requires
                        k <= 0xffff_ffff_ffff_ffff,
                ;
            }
            let grown: u128 = series[at] + bytes as u128;
            series.set(at, grown);
            k = k + 1;
        }
    }
    let mut has_data = false;
    let mut i: usize = 0;
    while i < series.len()
        invariant
            i <= series.len(),
            has_data == (exists|k: int| 0 <= k < i && #[trigger] series@[k] > 0),
        decreases series.len() - i,
    {
        if series[i] > 0 {
            assert(series@[i as int] > 0);
            has_data = true;
        }
        i = i + 1;
    }
    assert(has_data == any_bytes(series@));
    ServerTrafficSection {
        window_label: tr(lang, w.label_en, w.label_ru),
        picker,
        up,
        down,
        series,
        has_data,
    }
}

/// The traffic of a server in window `w` that ends at the current instant.
pub fn server_detail_traffic_section(
    rows: &Vec<VpnStatsRow>,
    w: VpnSparklineWindow,
    sid_enc: &str,
    lang: Locale,
) -> (r: ServerTrafficSection)
    ensures
        exists|now: UtcTime|
            0 <= now.seconds() && #[trigger] server_traffic_section(
                r,
                rows@,
                w,
                sid_enc@,
                lang,
                now,
            ),
{
    let now = utc_now();
    server_detail_traffic_section_at(rows, w, sid_enc, lang, now)
}

/// A recorded action.
pub struct AuditEntry {
    pub ts: UtcTime,
    pub actor: String,
    pub action: String,
}

/// Position of the newest deploy: the first entry, as entries come newest
/// first, whose action is a deploy.
pub fn last_deploy(rows: &Vec<AuditEntry>) -> (r: Option<usize>)
    ensures
        match r {
            Some(i) => i < rows@.len() && rows@[i as int].action@ == "server.deploy"@ && forall|
                k: int,
            |
                0 <= k < i ==> (#[trigger] rows@[k]).action@ != "server.deploy"@,
            None => forall|k: int|
                0 <= k < rows@.len() ==> (#[trigger] rows@[k]).action@ != "server.deploy"@,
        },
{
    let mut i: usize = 0;
    while i < rows.len()
        invariant
            i <= rows.len(),
            forall|k: int| 0 <= k < i ==> (#[trigger] rows@[k]).action@ != "server.deploy"@,
        decreases rows.len() - i,
    {
        if same(rows[i].action.as_str(), "server.deploy") {
            return Some(i);
        }
        i = i + 1;
    }
    None
}

/// Whether an action records the bootstrap of a server.
pub open spec fn is_bootstrap(action: Seq<char>) -> bool {
    "server.bootstrap"@.is_prefix_of(action) || action == "bootstrap"@
}

/// Position of the first entry that records the bootstrap of the server.
pub fn bootstrap_record(rows: &Vec<AuditEntry>) -> (r: Option<usize>)
    ensures
        match r {
            Some(i) => i < rows@.len() && is_bootstrap(rows@[i as int].action@) && forall|k: int|
                0 <= k < i ==> !is_bootstrap((#[trigger] rows@[k]).action@),
            None => forall|k: int|
                0 <= k < rows@.len() ==> !is_bootstrap((#[trigger] rows@[k]).action@),
        },
{
    let mut i: usize = 0;
    while i < rows.len()
        invariant
            i <= rows.len(),
            forall|k: int| 0 <= k < i ==> !is_bootstrap((#[trigger] rows@[k]).action@),
        decreases rows.len() - i,
    {
        let action = rows[i].action.as_str();
        if starts_with(action, "server.bootstrap") || same(action, "bootstrap") {
            return Some(i);
        }
        i = i + 1;
    }
    None
}

} // verus!
