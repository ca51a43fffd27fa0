//! Who may use a server: the grants table.
use crate::lists::{distinct_sorted, has_text};
use crate::locale::{tr, Locale};
use crate::order::{stable_order, text_before};
use crate::presence::LiveConnection;
use crate::server_config::ServerRole;
use crate::text::{cat4, cat5, dec, dec2, join, same};
use crate::time::UtcTime;
use vstd::prelude::*;

verus! {

/// A user of the inventory.
pub struct ListedUser {
    pub id: String,
    /// The id, path-encoded.
    pub path: String,
}

/// Bytes of a user on the server.
pub struct UserBytes {
    pub user: String,
    pub bytes: u64,
}

/// When a user was granted access, if that was recorded.
pub struct GrantDate {
    pub user: String,
    pub at: Option<UtcTime>,
}

/// Bytes of the last of the first `n` entries for `user`, 0 without one.
pub open spec fn bytes_of(traffic: Seq<UserBytes>, user: Seq<char>, n: int) -> u64
    decreases n,
{
    if n <= 0 {
        0
    } else if traffic[n - 1].user@ == user {
        traffic[n - 1].bytes
    } else {
        bytes_of(traffic, user, n - 1)
    }
}

/// Date of the last of the first `n` entries for `user`.
pub open spec fn date_of_grant(dates: Seq<GrantDate>, user: Seq<char>, n: int) -> Option<UtcTime>
    decreases n,
{
    if n <= 0 {
        None
    } else if dates[n - 1].user@ == user {
        dates[n - 1].at
    } else {
        date_of_grant(dates, user, n - 1)
    }
}

/// Connections that the node attributes to `user`.
pub open spec fn user_connections(cs: Seq<LiveConnection>, user: Seq<char>) -> int
    decreases cs.len(),
{
    if cs.len() == 0 {
        0
    } else {
        user_connections(cs.drop_last(), user) + (if crate::text::opt_string(cs.last().user)
            == Some(user) {
            1int
        } else {
            0
        })
    }
}

/// What the grants tab is made of.
pub struct GrantsFacts {
    pub role: ServerRole,
    /// Ids of the users with access.
    pub granted: Vec<String>,
    pub all_users: Vec<ListedUser>,
    /// Ids of granted users that the running configuration lacks.
    pub pending: Vec<String>,
    pub dates: Vec<GrantDate>,
    /// Connections of a fresh snapshot; none without one.
    pub connections: Vec<LiveConnection>,
    pub traffic: Vec<UserBytes>,
}

/// How the table is sorted.
#[derive(Clone, Copy, PartialEq, Eq, Structural, Debug)]
pub enum GrantSort {
    Id,
    Presence,
    Traffic,
}

/// The sort that a query asks for; by id for anything unknown.
pub open spec fn sort_of(query: Option<Seq<char>>) -> GrantSort {
    if query == Some("presence"@) {
        GrantSort::Presence
    } else if query == Some("traffic"@) {
        GrantSort::Traffic
    } else {
        GrantSort::Id
    }
}

/// The sort that a query asks for; by id for anything unknown.
pub fn pick_sort(query: Option<&str>) -> (r: GrantSort)
    ensures
        r == sort_of(crate::text::opt_text(query)),
{
    match query {
        Some(q) => if same(q, "presence") {
            GrantSort::Presence
        } else if same(q, "traffic") {
            GrantSort::Traffic
        } else {
            GrantSort::Id
        },
        None => GrantSort::Id,
    }
}

/// What a row is sorted by.
pub struct GrantKey {
    pub pending: bool,
    pub conns: int,
    pub bytes: int,
    pub id: Seq<char>,
}

/// The key of user `u`.
pub open spec fn grant_key(f: GrantsFacts, u: ListedUser) -> GrantKey {
    GrantKey {
        pending: crate::text::texts(f.pending@).contains(u.id@),
        conns: user_connections(f.connections@, u.id@),
        bytes: bytes_of(f.traffic@, u.id@, f.traffic@.len() as int) as int,
        id: u.id@,
    }
}

/// More on the first measure, or as much and more on the second.
pub open spec fn ranks_higher(a1: int, a2: int, b1: int, b2: int) -> bool {
    a1 > b1 || (a1 == b1 && a2 > b2)
}

/// Equal on both measures.
pub open spec fn ranks_same(a1: int, a2: int, b1: int, b2: int) -> bool {
    a1 == b1 && a2 == b2
}

/// `a` is listed before `b`: users that await a deploy first, then by the
/// chosen measure in descending order, then by id.
pub open spec fn key_before(a: GrantKey, b: GrantKey, sort: GrantSort) -> bool {
    if a.pending != b.pending {
        a.pending
    } else {
        let by_id = crate::order::lex_lt(a.id, b.id);
        match sort {
            GrantSort::Presence => ranks_higher(a.conns, a.bytes, b.conns, b.bytes) || (ranks_same(
                a.conns,
                a.bytes,
                b.conns,
                b.bytes,
            ) && by_id),
            GrantSort::Traffic => ranks_higher(a.bytes, a.conns, b.bytes, b.conns) || (ranks_same(
                a.bytes,
                a.conns,
                b.bytes,
                b.conns,
            ) && by_id),
            GrantSort::Id => by_id,
        }
    }
}

proof fn lemma_key_before(a: GrantKey, b: GrantKey, c: GrantKey, sort: GrantSort)
    ensures
        key_before(a, b, sort) ==> !key_before(b, a, sort),
        key_before(a, c, sort) ==> key_before(a, b, sort) || key_before(b, c, sort),
{
    crate::order::lex_lt_asymmetric(a.id, b.id);
    if crate::order::lex_lt(a.id, c.id) {
        crate::order::lex_lt_splits(a.id, b.id, c.id);
    }
}

/// Positions among the first `n` users that have access (or have none), in
/// order.
pub open spec fn users_with(
    users: Seq<ListedUser>,
    granted: Seq<Seq<char>>,
    access: bool,
    n: int,
) -> Seq<int>
    decreases n,
{
    if n <= 0 {
        Seq::empty()
    } else {
        let before = users_with(users, granted, access, n - 1);
        if granted.contains(users[n - 1].id@) == access {
            before.push(n - 1)
        } else {
            before
        }
    }
}

/// Row of a granted user.
pub struct GrantRow {
    /// Position of the user.
    pub at: usize,
    /// Row number, at least two digits.
    pub number: String,
    pub class: &'static str,
    /// Live connections.
    pub conns: usize,
    /// Bytes of the last day.
    pub bytes: u64,
    /// The running configuration lacks the user.
    pub pending: bool,
    pub granted_at: Option<UtcTime>,
    /// Where access is revoked.
    pub revoke: String,
    pub title: String,
}

/// A link that changes the sort.
pub struct SortLink {
    pub label: &'static str,
    pub active: bool,
    pub href: String,
}

/// Users and what can be done with them.
pub struct GrantsTable {
    /// Positions of the users without access.
    pub ungranted: Vec<usize>,
    /// Users with access.
    pub granted_count: usize,
    /// The question before revoking all.
    pub confirm: String,
    pub by_id: SortLink,
    pub by_presence: SortLink,
    pub by_traffic: SortLink,
    pub rows: Vec<GrantRow>,
}

/// Below the header of the grants tab.
pub enum GrantsBody {
    /// The server takes no users.
    WorkloadOnly,
    /// There are no users.
    NoUsers,
    Table(GrantsTable),
}

/// The grants tab.
pub struct GrantsView {
    /// Users with access.
    pub granted: usize,
    pub total: usize,
    /// Users with access that the running configuration has.
    pub deployed: usize,
    /// Ids of users that await a deploy, ascending.
    pub pending: Vec<String>,
    pub pending_list: String,
    pub body: GrantsBody,
}

/// Ids in page text and path.
pub struct ServerName {
    pub id: String,
    /// The id, path-encoded.
    pub path: String,
}

/// What revoking the access of one user does.
pub open spec fn revoke_title(user: Seq<char>, server: Seq<char>, lang: Locale) -> Seq<char> {
    match lang {
        Locale::En => "Revoke "@ + user + "'s access on "@ + server,
        Locale::Ru => "Отозвать доступ "@ + user + " на "@ + server,
    }
}

/// The question before revoking the access of everybody.
pub open spec fn confirm_text(count: nat, server: Seq<char>, lang: Locale) -> Seq<char> {
    match lang {
        Locale::En => "Revoke access for all "@ + crate::text::dec_text(count)
            + " granted users on server '"@ + server
            + "'? Type the server id to confirm:"@,
        Locale::Ru => "Отозвать доступ у всех "@ + crate::text::dec_text(count)
            + " юзеров с грантом на сервере '"@ + server
            + "'? Введи id сервера для подтверждения:"@,
    }
}

/// `r` is row `i` of the table.
pub open spec fn grant_row(
    r: GrantRow,
    i: int,
    f: GrantsFacts,
    server: ServerName,
    lang: Locale,
) -> bool {
    let u = f.all_users@[r.at as int];
    let key = grant_key(f, u);
    &&& r.number@ == crate::text::dec2_text((i + 1) as nat)
    &&& r.conns == key.conns
    &&& r.bytes == key.bytes
    &&& r.pending == key.pending
    &&& r.class == (if r.pending {
        "on-warn"
    } else if r.conns > 0 {
        "on-green"
    } else {
        ""
    })
    &&& r.granted_at == date_of_grant(f.dates@, u.id@, f.dates@.len() as int)
    &&& r.revoke@ == "/admin/servers/"@ + server.path@ + "/grants/"@ + u.path@ + "/revoke"@
    &&& r.title@ == revoke_title(u.id@, server.id@, lang)
}

/// Order of the granted users `at`.
pub open spec fn row_before(f: GrantsFacts, at: Seq<int>, sort: GrantSort) -> spec_fn(
    int,
    int,
) -> bool {
    |a: int, b: int|
        key_before(
            grant_key(f, f.all_users@[at[a]]),
            grant_key(f, f.all_users@[at[b]]),
            sort,
        )
}

/// `rows` lists the users with access, sorted.
pub open spec fn grant_rows(
    rows: Seq<GrantRow>,
    f: GrantsFacts,
    server: ServerName,
    sort: GrantSort,
    lang: Locale,
) -> bool {
    let at = users_with(
        f.all_users@,
        crate::text::texts(f.granted@),
        true,
        f.all_users@.len() as int,
    );
    &&& exists|order: Seq<usize>|
        {
            &&& #[trigger] crate::order::stably_sorted(
                order,
                at.len() as int,
                row_before(f, at, sort),
            )
            &&& rows.len() == order.len()
            &&& forall|i: int|
                0 <= i < rows.len() ==> (#[trigger] rows[i]).at == at[order[i] as int]
        }
    &&& forall|i: int|
        0 <= i < rows.len() ==> grant_row(#[trigger] rows[i], i, f, server, lang)
}

/// `l` sorts by `kind`.
pub open spec fn sort_link(
    l: SortLink,
    kind: Seq<char>,
    label: &'static str,
    query: Option<Seq<char>>,
    server: ServerName,
) -> bool {
    &&& l.label == label
    &&& l.active == ((match query {
        Some(q) => q,
        None => "id"@,
    }) == kind)
    &&& l.href@ == "/admin/servers/"@ + server.path@ + "/grants?grant_sort="@ + kind
}

/// `t` is the table for a query.
pub open spec fn grants_table(
    t: GrantsTable,
    f: GrantsFacts,
    server: ServerName,
    query: Option<Seq<char>>,
    lang: Locale,
) -> bool {
    let granted = crate::text::texts(f.granted@);
    let off = users_with(f.all_users@, granted, false, f.all_users@.len() as int);
    &&& t.ungranted@.len() == off.len()
    &&& forall|i: int| 0 <= i < off.len() ==> #[trigger] t.ungranted@[i] == off[i]
    &&& exists|keys: Seq<Seq<char>>| #[trigger]
        crate::lists::sorted_set(keys, granted) && t.granted_count == keys.len()
    &&& t.confirm@ == confirm_text(t.granted_count as nat, server.id@, lang)
    &&& sort_link(t.by_id, "id"@, "id ↑", query, server)
    &&& sort_link(
        t.by_presence,
        "presence"@,
        crate::locale::in_language(lang, "online ↓", "онлайн ↓"),
        query,
        server,
    )
    &&& sort_link(
        t.by_traffic,
        "traffic"@,
        crate::locale::in_language(lang, "traffic ↓", "трафик ↓"),
        query,
        server,
    )
    &&& grant_rows(t.rows@, f, server, sort_of(query), lang)
}

/// `v` is the grants tab for a query.
pub open spec fn grants_view(
    v: GrantsView,
    f: GrantsFacts,
    server: ServerName,
    query: Option<Seq<char>>,
    lang: Locale,
) -> bool {
    &&& v.granted == f.granted@.len()
    &&& v.total == f.all_users@.len()
    &&& crate::lists::sorted_set(
        crate::text::texts(v.pending@),
        crate::text::texts(f.pending@),
    )
    &&& v.pending_list@ == crate::text::join_text(crate::text::texts(v.pending@), ", "@)
    &&& v.deployed == (if v.granted >= v.pending@.len() {
        v.granted - v.pending@.len()
    } else {
        0
    })
    &&& match v.body {
        GrantsBody::WorkloadOnly => f.role is WorkloadOnly,
        GrantsBody::NoUsers => !(f.role is WorkloadOnly) && f.all_users@.len() == 0,
        GrantsBody::Table(t) => !(f.role is WorkloadOnly) && f.all_users@.len() > 0
            && grants_table(t, f, server, query, lang),
    }
}

fn select_users(users: &Vec<ListedUser>, granted: &Vec<String>, access: bool) -> (r: Vec<usize>)
    ensures
        r@.len() == users_with(
            users@,
            crate::text::texts(granted@),
            access,
            users@.len() as int,
        ).len(),
        forall|i: int|
            0 <= i < r@.len() ==> #[trigger] r@[i] == users_with(
                users@,
                crate::text::texts(granted@),
                access,
                users@.len() as int,
            )[i] && r@[i] < users@.len(),
{
    let mut r: Vec<usize> = Vec::new();
    let ghost ids = crate::text::texts(granted@);
    let mut i: usize = 0;
    while i < users.len()
        invariant
            i <= users.len(),
            ids == crate::text::texts(granted@),
            r@.len() == users_with(users@, ids, access, i as int).len(),
            forall|j: int|
                0 <= j < r@.len() ==> #[trigger] r@[j] == users_with(
                    users@,
                    ids,
                    access,
                    i as int,
                )[j] && r@[j] < users@.len(),
        decreases users.len() - i,
    {
        if has_text(granted, users[i].id.as_str()) == access {
            r.push(i);
        }
        i = i + 1;
    }
    r
}

fn count_connections(cs: &Vec<LiveConnection>, user: &str) -> (r: usize)
    ensures
        r == user_connections(cs@, user@),
{
    let mut n: usize = 0;
    let mut i: usize = 0;
    while i < cs.len()
        invariant
            i <= cs.len(),
            n <= i,
            n == user_connections(cs@.take(i as int), user@),
        decreases cs.len() - i,
    {
        assert(cs@.take(i + 1).drop_last() =~= cs@.take(i as int));
        let own = match &cs[i].user {
            Some(u) => same(u.as_str(), user),
            None => false,
        };
        if own {
            n = n + 1;
        }
        i = i + 1;
    }
    assert(cs@.take(i as int) =~= cs@);
    n
}

fn find_bytes(traffic: &Vec<UserBytes>, user: &str) -> (r: u64)
    ensures
        r == bytes_of(traffic@, user@, traffic@.len() as int),
{
    let mut i: usize = traffic.len();
    while i > 0
        invariant
            i <= traffic.len(),
            bytes_of(traffic@, user@, traffic@.len() as int) == bytes_of(
                traffic@,
                user@,
                i as int,
            ),
        decreases i,
    {
        if same(traffic[i - 1].user.as_str(), user) {
            return traffic[i - 1].bytes;
        }
        i = i - 1;
    }
    0
}

fn find_date(dates: &Vec<GrantDate>, user: &str) -> (r: Option<UtcTime>)
    ensures
        r == date_of_grant(dates@, user@, dates@.len() as int),
{
    let mut i: usize = dates.len();
    while i > 0
        invariant
            i <= dates.len(),
            date_of_grant(dates@, user@, dates@.len() as int) == date_of_grant(
                dates@,
                user@,
                i as int,
            ),
        decreases i,
    {
        if same(dates[i - 1].user.as_str(), user) {
            return dates[i - 1].at;
        }
        i = i - 1;
    }
    None
}

fn user_before(f: &GrantsFacts, a: usize, b: usize, sort: GrantSort) -> (r: bool)
    requires
        a < f.all_users@.len(),
        b < f.all_users@.len(),
    ensures
        r == key_before(
            grant_key(*f, f.all_users@[a as int]),
            grant_key(*f, f.all_users@[b as int]),
            sort,
        ),
{
    let ida = f.all_users[a].id.as_str();
    let idb = f.all_users[b].id.as_str();
    let pa = has_text(&f.pending, ida);
    let pb = has_text(&f.pending, idb);
    if pa != pb {
        return pa;
    }
    let ca: usize = count_connections(&f.connections, ida);
    let cb: usize = count_connections(&f.connections, idb);
    let ta: u64 = find_bytes(&f.traffic, ida);
    let tb: u64 = find_bytes(&f.traffic, idb);
    let by_id = text_before(ida, idb);
    match sort {
        GrantSort::Presence => ca > cb || (ca == cb && ta > tb) || (ca == cb && ta == tb && by_id),
        GrantSort::Traffic => ta > tb || (ta == tb && ca > cb) || (ta == tb && ca == cb && by_id),
        GrantSort::Id => by_id,
    }
}

fn build_row(
    f: &GrantsFacts,
    server: &ServerName,
    at: usize,
    i: usize,
    lang: Locale,
) -> (r: GrantRow)
    requires
        at < f.all_users@.len(),
        i < usize::MAX,
    ensures
        r.at == at,
        grant_row(r, i as int, *f, *server, lang),
{
    let u = &f.all_users[at];
    let id = u.id.as_str();
    let conns: usize = count_connections(&f.connections, id);
    let pending = has_text(&f.pending, id);
    GrantRow {
        at,
        number: dec2(i as u64 + 1),
        class: if pending {
            "on-warn"
        } else if conns > 0 {
            "on-green"
        } else {
            ""
        },
        conns,
        bytes: find_bytes(&f.traffic, id),
        pending,
        granted_at: find_date(&f.dates, id),
        revoke: cat5(
            "/admin/servers/",
            server.path.as_str(),
            "/grants/",
            u.path.as_str(),
            "/revoke",
        ),
        title: match lang {
            Locale::En => cat4("Revoke ", id, "'s access on ", server.id.as_str()),
            Locale::Ru => cat4("Отозвать доступ ", id, " на ", server.id.as_str()),
        },
    }
}

fn build_rows(
    f: &GrantsFacts,
    server: &ServerName,
    sort: GrantSort,
    lang: Locale,
) -> (rows: Vec<GrantRow>)
    ensures
        grant_rows(rows@, *f, *server, sort, lang),
{
    let on = select_users(&f.all_users, &f.granted, true);
    let ghost at = users_with(
        f.all_users@,
        crate::text::texts(f.granted@),
        true,
        f.all_users@.len() as int,
    );
    let ghost before = row_before(*f, at, sort);
    proof {
        assert forall|x: int, y: int|
            0 <= x < at.len() && 0 <= y < at.len() && #[trigger] before(x, y) implies !before(
            y,
            x,
        ) by {
            lemma_key_before(
                grant_key(*f, f.all_users@[at[x]]),
                grant_key(*f, f.all_users@[at[y]]),
                grant_key(*f, f.all_users@[at[y]]),
                sort,
            );
        }
        assert forall|x: int, y: int, z: int|
            0 <= x < at.len() && 0 <= y < at.len() && 0 <= z < at.len() && #[trigger] before(
                x,
                z,
            ) implies #[trigger] before(x, y) || before(y, z) by {
            lemma_key_before(
                grant_key(*f, f.all_users@[at[x]]),
                grant_key(*f, f.all_users@[at[y]]),
                grant_key(*f, f.all_users@[at[z]]),
                sort,
            );
        }
    }
    let less = |a: usize, b: usize| -> (c: bool)
        requires
            a < on@.len(),
            b < on@.len(),
        ensures
            c == key_before(
                grant_key(*f, f.all_users@[on@[a as int] as int]),
                grant_key(*f, f.all_users@[on@[b as int] as int]),
                sort,
            ),
        {
            assert(on@[a as int] < f.all_users@.len());
            assert(on@[b as int] < f.all_users@.len());
            user_before(f, on[a], on[b], sort)
        };
    proof {
        assert forall|a: usize, b: usize, c: bool| #[trigger]
            less.ensures((a, b), c) && a < on@.len() && b < on@.len() implies c == before(
            a as int,
            b as int,
        ) by {
            assert(on@[a as int] == at[a as int]);
            assert(on@[b as int] == at[b as int]);
        }
    }
    let order = stable_order(on.len(), less, Ghost(before));
    let mut rows: Vec<GrantRow> = Vec::new();
    let mut i: usize = 0;
    while i < order.len()
        invariant
            i <= order.len(),
            rows@.len() == i,
            order@.len() == on@.len(),
            on@.len() == at.len(),
            forall|j: int| 0 <= j < order@.len() ==> #[trigger] order@[j] < on@.len(),
            forall|j: int|
                0 <= j < on@.len() ==> #[trigger] on@[j] == at[j] && on@[j] < f.all_users@.len(),
            forall|j: int| 0 <= j < i ==> (#[trigger] rows@[j]).at == at[order@[j] as int],
            forall|j: int|
                0 <= j < i ==> grant_row(#[trigger] rows@[j], j, *f, *server, lang),
        decreases order.len() - i,
    {
        let k: usize = order[i];
        assert(on@[k as int] == at[k as int]);
        rows.push(build_row(f, server, on[k], i, lang));
        i = i + 1;
    }
    rows
}

fn link_to(
    kind: &str,
    label: &'static str,
    query: Option<&str>,
    server: &ServerName,
) -> (r: SortLink)
    ensures
        sort_link(r, kind@, label, crate::text::opt_text(query), *server),
{
    SortLink {
        label,
        active: match query {
            Some(q) => same(q, kind),
            None => same("id", kind),
        },
        href: cat4("/admin/servers/", server.path.as_str(), "/grants?grant_sort=", kind),
    }
}

/// The grants tab of a server.
pub fn grants_tab(
    f: &GrantsFacts,
    server: &ServerName,
    query: Option<&str>,
    lang: Locale,
) -> (r: GrantsView)
    ensures
        grants_view(r, *f, *server, crate::text::opt_text(query), lang),
{
    let pending = distinct_sorted(&f.pending);
    let pending_list = join(&pending, ", ");
    let deployed: usize = if f.granted.len() >= pending.len() {
        f.granted.len() - pending.len()
    } else {
        0
    };
    let closed = match f.role {
        ServerRole::WorkloadOnly => true,
        ServerRole::VpnExit => false,
    };
    let body = if closed {
        GrantsBody::WorkloadOnly
    } else if f.all_users.len() == 0 {
        GrantsBody::NoUsers
    } else {
        let keys = distinct_sorted(&f.granted);
        let granted_count: usize = keys.len();
        let n = dec(granted_count as u64);
        let confirm = match lang {
            Locale::En => cat5(
                "Revoke access for all ",
                n.as_str(),
                " granted users on server '",
                server.id.as_str(),
                "'? Type the server id to confirm:",
            ),
            Locale::Ru => cat5(
                "Отозвать доступ у всех ",
                n.as_str(),
                " юзеров с грантом на сервере '",
                server.id.as_str(),
                "'? Введи id сервера для подтверждения:",
            ),
        };
        assert(crate::text::texts(keys@).len() == keys@.len());
        let sort = pick_sort(query);
        GrantsBody::Table(
            GrantsTable {
                ungranted: select_users(&f.all_users, &f.granted, false),
                granted_count,
                confirm,
                by_id: link_to("id", "id ↑", query, server),
                by_presence: link_to(
                    "presence",
                    tr(lang, "online ↓", "онлайн ↓"),
                    query,
                    server,
                ),
                by_traffic: link_to(
                    "traffic",
                    tr(lang, "traffic ↓", "трафик ↓"),
                    query,
                    server,
                ),
                rows: build_rows(f, server, sort, lang),
            },
        )
    };
    GrantsView {
        granted: f.granted.len(),
        total: f.all_users.len(),
        deployed,
        pending,
        pending_list,
        body,
    }
}

/// Whatever the sort, users that await a deploy are listed before all others.
pub proof fn pending_rows_first(
    rows: Seq<GrantRow>,
    f: GrantsFacts,
    server: ServerName,
    sort: GrantSort,
    lang: Locale,
    i: int,
    j: int,
)
    requires
        grant_rows(rows, f, server, sort, lang),
        0 <= i < j < rows.len(),
        rows[j].pending,
    ensures
        rows[i].pending,
{
    let at = users_with(
        f.all_users@,
        crate::text::texts(f.granted@),
        true,
        f.all_users@.len() as int,
    );
    let order = choose|order: Seq<usize>|
        {
            &&& #[trigger] crate::order::stably_sorted(
                order,
                at.len() as int,
                row_before(f, at, sort),
            )
            &&& rows.len() == order.len()
            &&& forall|i: int|
                0 <= i < rows.len() ==> (#[trigger] rows[i]).at == at[order[i] as int]
        };
    assert(rows[i].at == at[order[i] as int]);
    assert(rows[j].at == at[order[j] as int]);
    assert(crate::order::listed_before(
        row_before(f, at, sort),
        order[i] as int,
        order[j] as int,
    ));
    assert(grant_row(rows[i], i, f, server, lang));
    assert(grant_row(rows[j], j, f, server, lang));
}

} // verus!
