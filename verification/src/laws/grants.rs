//! Laws of the grants table.
use crate::grants::{
    GrantDate, GrantRow, GrantSort, GrantsBody, GrantsFacts, GrantsView, ListedUser, ServerName,
    UserBytes,
};
use crate::locale::Locale;
use crate::presence::LiveConnection;
use vstd::prelude::*;

verus! {

/// The node attributes the connection to `user`.
pub open spec fn made_by(c: LiveConnection, user: Seq<char>) -> bool {
    c.user is Some && c.user->0@ == user
}

/// The connections counted for a user are those that the node attributes to
/// them.
pub proof fn connections_by_attribution(cs: Seq<LiveConnection>, user: Seq<char>)
    ensures
        crate::grants::user_connections(cs, user) == cs.filter(
            |c: LiveConnection| made_by(c, user),
        ).len(),
    decreases cs.len(),
{
    reveal(Seq::filter);
    if cs.len() > 0 {
        connections_by_attribution(cs.drop_last(), user);
    }
}

/// Of several entries for a user the last one counts; without one the user has
/// no bytes.
pub proof fn last_byte_count_counts(traffic: Seq<UserBytes>, user: Seq<char>, n: int, i: int)
    requires
        0 <= n <= traffic.len(),
    ensures
        0 <= i < n && traffic[i].user@ == user && (forall|j: int|
            i < j < n ==> (#[trigger] traffic[j]).user@ != user) ==> crate::grants::bytes_of(
            traffic,
            user,
            n,
        ) == traffic[i].bytes,
        (forall|j: int| 0 <= j < n ==> (#[trigger] traffic[j]).user@ != user)
            ==> crate::grants::bytes_of(traffic, user, n) == 0,
    decreases n,
{
    if n > 0 {
        last_byte_count_counts(traffic, user, n - 1, i);
    }
}

/// Of several dates for a user the last one counts; without one there is none.
pub proof fn last_date_counts(dates: Seq<GrantDate>, user: Seq<char>, n: int, i: int)
    requires
        0 <= n <= dates.len(),
    ensures
        0 <= i < n && dates[i].user@ == user && (forall|j: int|
            i < j < n ==> (#[trigger] dates[j]).user@ != user) ==> crate::grants::date_of_grant(
            dates,
            user,
            n,
        ) == dates[i].at,
        (forall|j: int| 0 <= j < n ==> (#[trigger] dates[j]).user@ != user)
            ==> crate::grants::date_of_grant(dates, user, n) is None,
    decreases n,
{
    if n > 0 {
        last_date_counts(dates, user, n - 1, i);
    }
}

proof fn lemma_users(users: Seq<ListedUser>, granted: Seq<Seq<char>>, access: bool, n: int)
    requires
        0 <= n <= users.len(),
    ensures
        forall|i: int|
            #![trigger users[i]]
            #![trigger crate::grants::users_with(users, granted, access, n).contains(i)]
            crate::grants::users_with(users, granted, access, n).contains(i) <==> (0 <= i < n && (
            granted.contains(users[i].id@) <==> access)),
        forall|j: int, k: int|
            0 <= j < k < crate::grants::users_with(users, granted, access, n).len()
                ==> #[trigger] crate::grants::users_with(users, granted, access, n)[j]
                < #[trigger] crate::grants::users_with(users, granted, access, n)[k],
        crate::grants::users_with(users, granted, access, n).len() <= n,
    decreases n,
{
    let here = crate::grants::users_with(users, granted, access, n);
    if n > 0 {
        let before = crate::grants::users_with(users, granted, access, n - 1);
        lemma_users(users, granted, access, n - 1);
        assert forall|i: int|
            #![trigger users[i]]
            #![trigger here.contains(i)]
            here.contains(i) <==> (0 <= i < n && (granted.contains(users[i].id@) <==> access)) by {
            if here.contains(i) {
                let k = here.index_of(i);
                if k < before.len() {
                    assert(before[k] == i);
                    assert(before.contains(i));
                }
            }
            if before.contains(i) {
                let k = before.index_of(i);
                assert(here[k] == i);
            }
            if i == n - 1 && (granted.contains(users[i].id@) <==> access) {
                assert(here[here.len() - 1] == i);
            }
        }
        assert forall|j: int, k: int| 0 <= j < k < here.len() implies #[trigger] here[j]
            < #[trigger] here[k] by {
            assert(before.contains(before[j]));
        }
    }
}

/// The table has one row for every user with access and none for others.
pub proof fn rows_are_the_granted_users(
    rows: Seq<GrantRow>,
    f: GrantsFacts,
    server: ServerName,
    sort: GrantSort,
    lang: Locale,
    u: int,
    i: int,
    j: int,
)
    requires
        crate::grants::grant_rows(rows, f, server, sort, lang),
        0 <= u < f.all_users@.len(),
    ensures
        (exists|k: int| 0 <= k < rows.len() && (#[trigger] rows[k]).at == u)
            <==> crate::text::texts(f.granted@).contains(f.all_users@[u].id@),
        0 <= i < j < rows.len() ==> rows[i].at != rows[j].at,
        0 <= i < rows.len() ==> rows[i].at < f.all_users@.len(),
{
    let granted = crate::text::texts(f.granted@);
    let n = f.all_users@.len() as int;
    let at = crate::grants::users_with(f.all_users@, granted, true, n);
    lemma_users(f.all_users@, granted, true, n);
    let order = choose|order: Seq<usize>|
        {
            &&& #[trigger] crate::order::stably_sorted(
                order,
                at.len() as int,
                crate::grants::row_before(f, at, sort),
            )
            &&& rows.len() == order.len()
            &&& forall|i: int|
                0 <= i < rows.len() ==> (#[trigger] rows[i]).at == at[order[i] as int]
        };
    if exists|k: int| 0 <= k < rows.len() && (#[trigger] rows[k]).at == u {
        let k = choose|k: int| 0 <= k < rows.len() && (#[trigger] rows[k]).at == u;
        assert(at.contains(at[order[k] as int]));
    }
    if granted.contains(f.all_users@[u].id@) {
        assert(at.contains(u));
        let p = at.index_of(u);
        assert(p < n);
        assert(f.all_users.len() == n);
        assert(p as usize == p);
        assert(order.contains(p as usize));
        let k = order.index_of(p as usize);
        assert(rows[k].at == u);
    }
    if 0 <= i < rows.len() {
        assert(rows[i].at == at[order[i] as int]);
        assert(at.contains(at[order[i] as int]));
    }
    if 0 <= i < j < rows.len() {
        assert(order[i] != order[j]);
        assert(rows[j].at == at[order[j] as int]);
        if order[i] < order[j] {
            assert(at[order[i] as int] < at[order[j] as int]);
        } else {
            assert(at[order[j] as int] < at[order[i] as int]);
        }
    }
}

/// Below the users that await a deploy, rows come by the chosen measure: most
/// connections or most bytes first, the other measure between equals, and the
/// id between users equal on both.
pub proof fn rows_come_by_the_chosen_measure(
    rows: Seq<GrantRow>,
    f: GrantsFacts,
    server: ServerName,
    sort: GrantSort,
    lang: Locale,
    i: int,
    j: int,
)
    requires
        crate::grants::grant_rows(rows, f, server, sort, lang),
        0 <= i < j < rows.len(),
    ensures
        rows[j].pending ==> rows[i].pending,
        rows[i].pending == rows[j].pending ==> {
            let a = f.all_users@[rows[i].at as int].id@;
            let b = f.all_users@[rows[j].at as int].id@;
            &&& sort is Id ==> !crate::order::lex_lt(b, a)
            &&& sort is Presence ==> {
                &&& rows[i].conns >= rows[j].conns
                &&& rows[i].conns == rows[j].conns ==> rows[i].bytes >= rows[j].bytes
                &&& rows[i].conns == rows[j].conns && rows[i].bytes == rows[j].bytes
                    ==> !crate::order::lex_lt(b, a)
            }
            &&& sort is Traffic ==> {
                &&& rows[i].bytes >= rows[j].bytes
                &&& rows[i].bytes == rows[j].bytes ==> rows[i].conns >= rows[j].conns
                &&& rows[i].bytes == rows[j].bytes && rows[i].conns == rows[j].conns
                    ==> !crate::order::lex_lt(b, a)
            }
        },
{
    let granted = crate::text::texts(f.granted@);
    let at = crate::grants::users_with(f.all_users@, granted, true, f.all_users@.len() as int);
    let before = crate::grants::row_before(f, at, sort);
    let order = choose|order: Seq<usize>|
        {
            &&& #[trigger] crate::order::stably_sorted(order, at.len() as int, before)
            &&& rows.len() == order.len()
            &&& forall|i: int|
                0 <= i < rows.len() ==> (#[trigger] rows[i]).at == at[order[i] as int]
        };
    let x = order[i] as int;
    let y = order[j] as int;
    assert(crate::order::listed_before(before, x, y));
    let a = crate::grants::grant_key(f, f.all_users@[at[x]]);
    let b = crate::grants::grant_key(f, f.all_users@[at[y]]);
    assert(rows[i].at == at[x] && rows[j].at == at[y]);
    assert(crate::grants::grant_row(rows[i], i, f, server, lang));
    assert(crate::grants::grant_row(rows[j], j, f, server, lang));
    assert(before(x, y) == crate::grants::key_before(a, b, sort));
    assert(before(y, x) == crate::grants::key_before(b, a, sort));
    if crate::order::lex_lt(a.id, b.id) {
        crate::order::lex_lt_asymmetric(a.id, b.id);
    }
}

/// A row shows the connections and bytes of its user, warns of a pending
/// deploy before it shows presence, is numbered from one on, and leads to the
/// revocation of just that user on just that server.
pub proof fn row_shows_its_user(
    r: GrantRow,
    i: int,
    f: GrantsFacts,
    server: ServerName,
    lang: Locale,
)
    requires
        crate::grants::grant_row(r, i, f, server, lang),
    ensures
        ({
            let u = f.all_users@[r.at as int];
            &&& r.number@ == crate::text::dec2_text((i + 1) as nat)
            &&& r.conns == f.connections@.filter(|c: LiveConnection| made_by(c, u.id@)).len()
            &&& r.bytes == crate::grants::bytes_of(f.traffic@, u.id@, f.traffic@.len() as int)
            &&& r.granted_at == crate::grants::date_of_grant(
                f.dates@,
                u.id@,
                f.dates@.len() as int,
            )
            &&& r.pending <==> crate::text::texts(f.pending@).contains(u.id@)
            &&& r.class@ == "on-warn"@ <==> r.pending
            &&& r.class@ == "on-green"@ <==> !r.pending && r.conns > 0
            &&& r.class@ == ""@ <==> !r.pending && r.conns == 0
            &&& r.revoke@ == "/admin/servers/"@ + server.path@ + "/grants/"@ + u.path@ + "/revoke"@
            &&& lang is En ==> r.title@ == "Revoke "@ + u.id@ + "'s access on "@ + server.id@
            &&& lang is Ru ==> r.title@ == "Отозвать доступ "@ + u.id@ + " на "@ + server.id@
        }),
{
    connections_by_attribution(f.connections@, f.all_users@[r.at as int].id@);
    reveal_strlit("on-warn");
    reveal_strlit("on-green");
    reveal_strlit("");
    assert("on-warn"@.len() == 7);
    assert("on-green"@.len() == 8);
    assert(""@.len() == 0);
}

/// The head of the tab counts users and names what awaits a deploy; below it
/// there is no table for a server that takes no users, and none without users.
pub proof fn head_counts_users(
    v: GrantsView,
    f: GrantsFacts,
    server: ServerName,
    query: Option<Seq<char>>,
    lang: Locale,
    x: Seq<char>,
)
    requires
        crate::grants::grants_view(v, f, server, query, lang),
    ensures
        v.granted == f.granted@.len(),
        v.total == f.all_users@.len(),
        v.granted >= v.pending@.len() ==> v.deployed + v.pending@.len() == v.granted,
        v.granted < v.pending@.len() ==> v.deployed == 0,
        crate::text::texts(v.pending@).contains(x) <==> crate::text::texts(f.pending@).contains(x),
        crate::text::texts(v.pending@).no_duplicates(),
        v.pending_list@ == crate::text::join_text(crate::text::texts(v.pending@), ", "@),
        v.body is WorkloadOnly <==> f.role is WorkloadOnly,
        v.body is NoUsers <==> !(f.role is WorkloadOnly) && f.all_users@.len() == 0,
{
    crate::lists::sorted_set_is_distinct(
        crate::text::texts(v.pending@),
        crate::text::texts(f.pending@),
    );
}

/// The table offers every user without access, in order, counts each granted
/// id once, and marks the sort that is in force.
pub proof fn table_offers_the_others(
    v: GrantsView,
    f: GrantsFacts,
    server: ServerName,
    query: Option<Seq<char>>,
    lang: Locale,
    u: usize,
    i: int,
    j: int,
)
    requires
        crate::grants::grants_view(v, f, server, query, lang),
    ensures
        v.body matches GrantsBody::Table(t) ==> {
            &&& t.ungranted@.contains(u) <==> u < f.all_users@.len() && !crate::text::texts(
                f.granted@,
            ).contains(f.all_users@[u as int].id@)
            &&& 0 <= i < j < t.ungranted@.len() ==> t.ungranted@[i] < t.ungranted@[j]
            &&& t.granted_count == crate::text::texts(f.granted@).to_set().len()
            &&& t.by_id.active <==> query is None || query == Some("id"@)
            &&& t.by_presence.active <==> query == Some("presence"@)
            &&& t.by_traffic.active <==> query == Some("traffic"@)
            &&& t.by_id.href@ == "/admin/servers/"@ + server.path@ + "/grants?grant_sort="@ + "id"@
            &&& t.by_presence.href@ == "/admin/servers/"@ + server.path@ + "/grants?grant_sort="@
                + "presence"@
            &&& t.by_traffic.href@ == "/admin/servers/"@ + server.path@ + "/grants?grant_sort="@
                + "traffic"@
            &&& lang is En ==> t.confirm@ == "Revoke access for all "@ + crate::text::dec_text(
                t.granted_count as nat,
            ) + " granted users on server '"@ + server.id@
                + "'? Type the server id to confirm:"@
            &&& lang is Ru ==> t.confirm@ == "Отозвать доступ у всех "@ + crate::text::dec_text(
                t.granted_count as nat,
            ) + " юзеров с грантом на сервере '"@ + server.id@
                + "'? Введи id сервера для подтверждения:"@
            &&& t.by_id.label@ == "id ↑"@
            &&& lang is En ==> t.by_presence.label@ == "online ↓"@ && t.by_traffic.label@
                == "traffic ↓"@
            &&& lang is Ru ==> t.by_presence.label@ == "онлайн ↓"@ && t.by_traffic.label@
                == "трафик ↓"@
            &&& t.by_presence.active ==> crate::grants::grant_rows(
                t.rows@,
                f,
                server,
                GrantSort::Presence,
                lang,
            )
            &&& t.by_traffic.active ==> crate::grants::grant_rows(
                t.rows@,
                f,
                server,
                GrantSort::Traffic,
                lang,
            )
            &&& !t.by_presence.active && !t.by_traffic.active ==> crate::grants::grant_rows(
                t.rows@,
                f,
                server,
                GrantSort::Id,
                lang,
            )
        },
{
    reveal_strlit("id");
    reveal_strlit("presence");
    reveal_strlit("traffic");
    assert("id"@.len() == 2 && "presence"@.len() == 8 && "traffic"@.len() == 7);
    if let GrantsBody::Table(t) = v.body {
        let granted = crate::text::texts(f.granted@);
        let n = f.all_users@.len() as int;
        let off = crate::grants::users_with(f.all_users@, granted, false, n);
        lemma_users(f.all_users@, granted, false, n);
        if t.ungranted@.contains(u) {
            let k = t.ungranted@.index_of(u);
            assert(off[k] == u);
            assert(off.contains(u as int));
        }
        if u < n && !granted.contains(f.all_users@[u as int].id@) {
            assert(off.contains(u as int));
            let k = off.index_of(u as int);
            assert(t.ungranted@[k] == u);
        }
        if 0 <= i < j < t.ungranted@.len() {
            assert(t.ungranted@[i] == off[i] && t.ungranted@[j] == off[j]);
        }
        let keys = choose|keys: Seq<Seq<char>>| #[trigger]
            crate::lists::sorted_set(keys, granted) && t.granted_count == keys.len();
        crate::lists::sorted_set_is_distinct(keys, granted);
        keys.unique_seq_to_set();
        assert(keys.to_set() =~= granted.to_set()) by {
            assert forall|x: Seq<char>| keys.to_set().contains(x) <==> granted.to_set().contains(
                x,
            ) by {
                assert(keys.contains(x) <==> granted.contains(x));
            }
        }
    }
}

} // verus!
