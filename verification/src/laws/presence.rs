//! Laws of presence.
use crate::locale::Locale;
use crate::presence::{LiveConnection, LiveSnapshot, OnlineBadge, SourceOwners};
use crate::time::UtcTime;
use vstd::prelude::*;

verus! {

/// Entry `e` is the first for the address `ip`.
pub open spec fn first_entry(owners: Seq<SourceOwners>, ip: Seq<char>, e: int) -> bool {
    &&& 0 <= e < owners.len()
    &&& owners[e].ip@ == ip
    &&& forall|j: int| 0 <= j < e ==> (#[trigger] owners[j]).ip@ != ip
}

/// The first entry for the address `ip` lists `uid` first, with or without
/// others behind.
pub open spec fn leads(owners: Seq<SourceOwners>, ip: Seq<char>, uid: Seq<char>) -> bool {
    exists|e: int| #[trigger]
        first_entry(owners, ip, e) && owners[e].users@.len() >= 1 && owners[e].users@[0]@ == uid
}

/// The connection belongs to `uid`: a node says so, or no node says anything,
/// there is an address, and `uid` is listed first for it.
pub open spec fn belongs(c: LiveConnection, uid: Seq<char>, owners: Seq<SourceOwners>) -> bool {
    match c.user {
        Some(u) => u@ == uid,
        None => c.source_ip@.len() > 0 && leads(owners, c.source_ip@, uid),
    }
}

/// The likeliest user behind an address is the one listed first in the first
/// entry for it, however many users that entry lists.
pub proof fn first_listed_user_owns_the_address(
    owners: Seq<SourceOwners>,
    ip: Seq<char>,
    uid: Seq<char>,
)
    ensures
        crate::presence::owner_of(owners, ip) == Some(uid) <==> leads(owners, ip, uid),
    decreases owners.len(),
{
    if owners.len() > 0 {
        if owners[0].ip@ == ip {
            assert(first_entry(owners, ip, 0));
            assert forall|e: int| #[trigger] first_entry(owners, ip, e) implies e == 0 by {
                if e > 0 {
                    assert(owners[0].ip@ != ip);
                }
            }
        } else {
            let rest = owners.skip(1);
            first_listed_user_owns_the_address(rest, ip, uid);
            if leads(rest, ip, uid) {
                let e = choose|e: int| #[trigger]
                    first_entry(rest, ip, e) && rest[e].users@.len() >= 1 && rest[e].users@[0]@
                        == uid;
                assert forall|j: int| 0 <= j < e + 1 implies (#[trigger] owners[j]).ip@ != ip by {
                    if j > 0 {
                        assert(rest[j - 1].ip@ != ip);
                    }
                }
                assert(first_entry(owners, ip, e + 1));
            }
            if leads(owners, ip, uid) {
                let e = choose|e: int| #[trigger]
                    first_entry(owners, ip, e) && owners[e].users@.len() >= 1
                        && owners[e].users@[0]@ == uid;
                assert forall|j: int| 0 <= j < e - 1 implies (#[trigger] rest[j]).ip@ != ip by {
                    assert(owners[j + 1].ip@ != ip);
                }
                assert(first_entry(rest, ip, e - 1));
            }
        }
    }
}

/// A connection counts for a user exactly where it belongs to them.
pub proof fn counted_where_it_belongs(c: LiveConnection, uid: Seq<char>, owners: Seq<SourceOwners>)
    ensures
        crate::presence::counts_for(c, uid, owners) <==> belongs(c, uid, owners),
{
    first_listed_user_owns_the_address(owners, c.source_ip@, uid);
}

/// Some connection on this server belongs to `uid`.
pub open spec fn seen_on(s: LiveSnapshot, uid: Seq<char>, owners: Seq<SourceOwners>) -> bool {
    exists|j: int|
        0 <= j < s.connections@.len() && belongs(#[trigger] s.connections@[j], uid, owners)
}

proof fn lemma_own(cs: Seq<LiveConnection>, uid: Seq<char>, owners: Seq<SourceOwners>)
    ensures
        crate::presence::own_connections(cs, uid, owners) >= 0,
        crate::presence::own_connections(cs, uid, owners) > 0 <==> exists|j: int|
            0 <= j < cs.len() && belongs(#[trigger] cs[j], uid, owners),
    decreases cs.len(),
{
    if cs.len() > 0 {
        let front = cs.drop_last();
        lemma_own(front, uid, owners);
        counted_where_it_belongs(cs.last(), uid, owners);
        if exists|j: int| 0 <= j < front.len() && belongs(#[trigger] front[j], uid, owners) {
            let j = choose|j: int| 0 <= j < front.len() && belongs(#[trigger] front[j], uid, owners);
            assert(belongs(cs[j], uid, owners));
        }
        if exists|j: int| 0 <= j < cs.len() && belongs(#[trigger] cs[j], uid, owners) {
            let j = choose|j: int| 0 <= j < cs.len() && belongs(#[trigger] cs[j], uid, owners);
            if j < front.len() {
                assert(belongs(front[j], uid, owners));
            }
        }
        if belongs(cs.last(), uid, owners) {
            assert(belongs(cs[cs.len() - 1], uid, owners));
        }
    }
}

proof fn lemma_servers(
    snaps: Seq<LiveSnapshot>,
    uid: Seq<char>,
    owners: Seq<SourceOwners>,
    id: Seq<char>,
)
    ensures
        crate::presence::online_servers(snaps, uid, owners).contains(id) <==> exists|k: int|
            0 <= k < snaps.len() && (#[trigger] snaps[k]).server_id@ == id && seen_on(
                snaps[k],
                uid,
                owners,
            ),
        crate::presence::all_own(snaps, uid, owners) >= 0,
        crate::presence::all_own(snaps, uid, owners) > 0 <==> exists|k: int|
            0 <= k < snaps.len() && seen_on(#[trigger] snaps[k], uid, owners),
    decreases snaps.len(),
{
    let here = crate::presence::online_servers(snaps, uid, owners);
    if snaps.len() > 0 {
        let front = snaps.drop_last();
        let last = snaps.last();
        let before = crate::presence::online_servers(front, uid, owners);
        lemma_servers(front, uid, owners, id);
        lemma_own(last.connections@, uid, owners);
        assert(snaps[snaps.len() - 1] == last);
        if here.contains(id) {
            let n = here.index_of(id);
            if n < before.len() {
                assert(before[n] == id);
                let k = choose|k: int|
                    0 <= k < front.len() && (#[trigger] front[k]).server_id@ == id && seen_on(
                        front[k],
                        uid,
                        owners,
                    );
                assert(snaps[k] == front[k]);
            }
        }
        if exists|k: int|
            0 <= k < snaps.len() && (#[trigger] snaps[k]).server_id@ == id && seen_on(
                snaps[k],
                uid,
                owners,
            ) {
            let k = choose|k: int|
                0 <= k < snaps.len() && (#[trigger] snaps[k]).server_id@ == id && seen_on(
                    snaps[k],
                    uid,
                    owners,
                );
            if k < front.len() {
                assert(front[k].server_id@ == id);
                let n = before.index_of(id);
                assert(here[n] == id);
            } else {
                assert(here[here.len() - 1] == id);
            }
        }
        if exists|k: int| 0 <= k < snaps.len() && seen_on(#[trigger] snaps[k], uid, owners) {
            let k = choose|k: int| 0 <= k < snaps.len() && seen_on(#[trigger] snaps[k], uid, owners);
            if k < front.len() {
                assert(seen_on(front[k], uid, owners));
            }
        }
        if exists|k: int| 0 <= k < front.len() && seen_on(#[trigger] front[k], uid, owners) {
            let k = choose|k: int| 0 <= k < front.len() && seen_on(#[trigger] front[k], uid, owners);
            assert(seen_on(snaps[k], uid, owners));
        }
    }
}

/// A user is online exactly where some connection on some server belongs to
/// them, and the badge then lists exactly the servers with such a connection.
pub proof fn online_where_a_connection_belongs(
    b: OnlineBadge,
    uid: Seq<char>,
    snaps: Seq<LiveSnapshot>,
    owners: Seq<SourceOwners>,
    last_seen: Option<UtcTime>,
    lang: Locale,
    now: UtcTime,
    id: Seq<char>,
)
    requires
        crate::presence::badge_of(b, uid, snaps, owners, last_seen, lang, now),
    ensures
        b is Online <==> exists|k: int|
            0 <= k < snaps.len() && seen_on(#[trigger] snaps[k], uid, owners),
        b matches OnlineBadge::Online { servers, .. } ==> (crate::text::texts(servers@).contains(id)
            <==> exists|k: int|
            0 <= k < snaps.len() && (#[trigger] snaps[k]).server_id@ == id && seen_on(
                snaps[k],
                uid,
                owners,
            )),
{
    lemma_servers(snaps, uid, owners, id);
}

/// An unattributed connection from an address whose first entry lists `uid`
/// first puts `uid` online on that server, however many others are listed
/// behind them.
pub proof fn first_listed_user_is_online(
    b: OnlineBadge,
    uid: Seq<char>,
    snaps: Seq<LiveSnapshot>,
    owners: Seq<SourceOwners>,
    last_seen: Option<UtcTime>,
    lang: Locale,
    now: UtcTime,
    k: int,
    j: int,
    e: int,
)
    requires
        crate::presence::badge_of(b, uid, snaps, owners, last_seen, lang, now),
        0 <= k < snaps.len(),
        0 <= j < snaps[k].connections@.len(),
        snaps[k].connections@[j].user is None,
        snaps[k].connections@[j].source_ip@.len() > 0,
        first_entry(owners, snaps[k].connections@[j].source_ip@, e),
        owners[e].users@.len() >= 1,
        owners[e].users@[0]@ == uid,
    ensures
        b matches OnlineBadge::Online { servers, .. } && crate::text::texts(servers@).contains(
            snaps[k].server_id@,
        ),
{
    let c = snaps[k].connections@[j];
    assert(leads(owners, c.source_ip@, uid));
    assert(belongs(c, uid, owners));
    assert(seen_on(snaps[k], uid, owners));
    online_where_a_connection_belongs(
        b,
        uid,
        snaps,
        owners,
        last_seen,
        lang,
        now,
        snaps[k].server_id@,
    );
}

/// Connections that a badge counts.
pub open spec fn counted(b: OnlineBadge) -> int {
    match b {
        OnlineBadge::Online { total, .. } => total as int,
        OnlineBadge::Offline { .. } => 0,
    }
}

/// One more connection adds one to the count where it belongs to the user and
/// nothing otherwise; without any the count is zero, and a server without
/// connections adds nothing.
pub proof fn one_more_connection(
    a: OnlineBadge,
    b: OnlineBadge,
    d: OnlineBadge,
    uid: Seq<char>,
    snaps: Seq<LiveSnapshot>,
    s: LiveSnapshot,
    t: LiveSnapshot,
    c: LiveConnection,
    owners: Seq<SourceOwners>,
    last_seen: Option<UtcTime>,
    lang: Locale,
    now: UtcTime,
)
    requires
        crate::presence::badge_of(a, uid, snaps, owners, last_seen, lang, now),
        crate::presence::badge_of(b, uid, snaps.push(s), owners, last_seen, lang, now),
        crate::presence::badge_of(d, uid, snaps.push(t), owners, last_seen, lang, now),
        t.connections@ == s.connections@.push(c),
    ensures
        counted(d) == counted(b) + (if belongs(c, uid, owners) {
            1int
        } else {
            0
        }),
        s.connections@.len() == 0 ==> counted(b) == counted(a),
        snaps.len() == 0 ==> counted(a) == 0,
{
    assert(snaps.push(s).drop_last() =~= snaps);
    assert(snaps.push(t).drop_last() =~= snaps);
    assert(t.connections@.drop_last() =~= s.connections@);
    counted_where_it_belongs(c, uid, owners);
    lemma_servers(snaps, uid, owners, uid);
    lemma_servers(snaps.push(s), uid, owners, uid);
    lemma_servers(snaps.push(t), uid, owners, uid);
}

/// The words of the badge: one connection in the singular, one server with its
/// own preposition, the servers ascending and separated by commas.
pub proof fn badge_reads_naturally(
    b: OnlineBadge,
    uid: Seq<char>,
    snaps: Seq<LiveSnapshot>,
    owners: Seq<SourceOwners>,
    last_seen: Option<UtcTime>,
    lang: Locale,
    now: UtcTime,
    i: int,
    j: int,
)
    requires
        crate::presence::badge_of(b, uid, snaps, owners, last_seen, lang, now),
    ensures
        b matches OnlineBadge::Online { total, noun, preposition, servers, server_list } ==> {
            &&& total >= 1
            &&& lang is En ==> noun@ == (if total == 1 {
                "conn"@
            } else {
                "conns"@
            })
            &&& lang is Ru ==> noun@ == (if total == 1 {
                "соединение"@
            } else {
                "соединений"@
            })
            &&& lang is En ==> preposition@ == (if servers@.len() == 1 {
                "on "@
            } else {
                "across "@
            })
            &&& lang is Ru ==> preposition@ == "на "@
            &&& server_list@ == crate::text::join_text(crate::text::texts(servers@), ", "@)
            &&& 0 <= i < j < servers@.len() ==> crate::order::lex_lt(servers@[i]@, servers@[j]@)
        },
        b matches OnlineBadge::Offline { seen } ==> {
            &&& last_seen is None && lang is En ==> seen@ == "never connected"@
            &&& last_seen is None && lang is Ru ==> seen@ == "ни разу не подключался"@
            &&& last_seen matches Some(ts) ==> (lang is En ==> seen@ == "last seen "@
                + crate::presence::since_text(ts, lang, now))
            &&& last_seen matches Some(ts) ==> (lang is Ru ==> seen@ == "последний раз "@
                + crate::presence::since_text(ts, lang, now))
        },
{
    if let OnlineBadge::Online { total, noun, preposition, servers, server_list } = b {
        let t = crate::text::texts(servers@);
        if 0 <= i < j < servers@.len() {
            assert(t[i] == servers@[i]@ && t[j] == servers@[j]@);
        }
    }
}

/// What lies less than a minute back, or ahead, is just now; then whole
/// minutes, whole hours and whole days are counted.
pub proof fn elapsed_in_whole_units(ts: UtcTime, lang: Locale, now: UtcTime, n: int)
    requires
        n >= 1,
    ensures
        ({
            let nanos = now.stamp() - ts.stamp();
            let second: int = 1_000_000_000;
            let text = crate::presence::since_text(ts, lang, now);
            &&& nanos < 60 * second && lang is En ==> text == "just now"@
            &&& nanos < 60 * second && lang is Ru ==> text == "только что"@
            &&& n < 60 && n * 60 * second <= nanos < (n + 1) * 60 * second && lang is En ==> text
                == crate::text::dec_text(n as nat) + "m ago"@
            &&& n < 60 && n * 60 * second <= nanos < (n + 1) * 60 * second && lang is Ru ==> text
                == crate::text::dec_text(n as nat) + "м назад"@
            &&& n < 24 && n * 3600 * second <= nanos < (n + 1) * 3600 * second && lang is En ==> text
                == crate::text::dec_text(n as nat) + "h ago"@
            &&& n < 24 && n * 3600 * second <= nanos < (n + 1) * 3600 * second && lang is Ru ==> text
                == crate::text::dec_text(n as nat) + "ч назад"@
            &&& n * 86_400 * second <= nanos < (n + 1) * 86_400 * second && lang is En ==> text
                == crate::text::dec_text(n as nat) + "d ago"@
            &&& n * 86_400 * second <= nanos < (n + 1) * 86_400 * second && lang is Ru ==> text
                == crate::text::dec_text(n as nat) + "д назад"@
        }),
{
    let nanos = now.stamp() - ts.stamp();
    let secs = crate::time::whole_seconds(nanos);
    if n * 60 * 1_000_000_000 <= nanos < (n + 1) * 60 * 1_000_000_000 {
        assert(secs / 60 == n);
    }
    if n * 3600 * 1_000_000_000 <= nanos < (n + 1) * 3600 * 1_000_000_000 {
        assert(secs / 3600 == n);
    }
    if n * 86_400 * 1_000_000_000 <= nanos < (n + 1) * 86_400 * 1_000_000_000 {
        assert(secs / 86_400 == n);
    }
}

proof fn lemma_unattributed(cs: Seq<LiveConnection>, n: int, ip: Seq<char>)
    requires
        0 <= n <= cs.len(),
    ensures
        crate::presence::unattributed(cs, n).contains(ip) <==> exists|j: int|
            0 <= j < n && (#[trigger] cs[j]).user is None && cs[j].source_ip@ == ip && ip.len() > 0,
    decreases n,
{
    let here = crate::presence::unattributed(cs, n);
    if n > 0 {
        let before = crate::presence::unattributed(cs, n - 1);
        lemma_unattributed(cs, n - 1, ip);
        if here.contains(ip) {
            let k = here.index_of(ip);
            if k < before.len() {
                assert(before[k] == ip);
            } else {
                assert(cs[n - 1].source_ip@ == ip);
            }
        }
        if before.contains(ip) {
            let k = before.index_of(ip);
            assert(here[k] == ip);
        }
        if cs[n - 1].user is None && cs[n - 1].source_ip@ == ip && ip.len() > 0 {
            assert(here[here.len() - 1] == ip);
        }
    }
}

/// An unattributed connection with an address.
pub open spec fn unresolved(c: LiveConnection, ip: Seq<char>) -> bool {
    c.user is None && c.source_ip@ == ip && ip.len() > 0
}

/// An address is to be resolved exactly where some server has a connection from
/// it that no node attributes to a user.
pub proof fn unattributed_addresses_are_resolved(snaps: Seq<LiveSnapshot>, n: int, ip: Seq<char>)
    requires
        0 <= n <= snaps.len(),
    ensures
        crate::presence::all_unattributed(snaps, n).contains(ip) <==> exists|k: int, j: int|
            0 <= k < n && 0 <= j < snaps[k].connections@.len() && unresolved(
                #[trigger] snaps[k].connections@[j],
                ip,
            ),
    decreases n,
{
    let here = crate::presence::all_unattributed(snaps, n);
    if n > 0 {
        let before = crate::presence::all_unattributed(snaps, n - 1);
        let cs = snaps[n - 1].connections@;
        let own = crate::presence::unattributed(cs, cs.len() as int);
        unattributed_addresses_are_resolved(snaps, n - 1, ip);
        lemma_unattributed(cs, cs.len() as int, ip);
        if here.contains(ip) {
            let k = here.index_of(ip);
            if k < before.len() {
                assert(before[k] == ip);
            } else {
                assert(own[k - before.len()] == ip);
                let j = choose|j: int|
                    0 <= j < cs.len() && (#[trigger] cs[j]).user is None && cs[j].source_ip@ == ip
                        && ip.len() > 0;
                assert(unresolved(snaps[n - 1].connections@[j], ip));
            }
        }
        if exists|k: int, j: int|
            0 <= k < n && 0 <= j < snaps[k].connections@.len() && unresolved(
                #[trigger] snaps[k].connections@[j],
                ip,
            ) {
            let (k, j) = choose|k: int, j: int|
                0 <= k < n && 0 <= j < snaps[k].connections@.len() && unresolved(
                    #[trigger] snaps[k].connections@[j],
                    ip,
                );
            if k == n - 1 {
                assert(cs[j].user is None);
                let m = own.index_of(ip);
                assert(here[before.len() + m] == ip);
            } else {
                assert(unresolved(snaps[k].connections@[j], ip));
                let m = before.index_of(ip);
                assert(here[m] == ip);
            }
        }
    }
}

} // verus!
