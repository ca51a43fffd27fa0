//! Whether a user is online, and when they were last seen.
use crate::lists::distinct_sorted;
use crate::locale::{tr, Locale};
use crate::text::{cat2, dec, is_empty, join, same};
use crate::time::{utc_now, UtcTime};
use vstd::prelude::*;

verus! {

/// A live connection as a node reports it.
pub struct LiveConnection {
    /// The user it is attributed to, if the node knows.
    pub user: Option<String>,
    pub source_ip: String,
}

/// The connections of one server that are fresh enough to count as live.
pub struct LiveSnapshot {
    pub server_id: String,
    pub connections: Vec<LiveConnection>,
}

/// Users seen behind a source address, the likeliest first.
pub struct SourceOwners {
    pub ip: String,
    pub users: Vec<String>,
}

/// The likeliest user behind `ip`, from the first entry for it.
pub open spec fn owner_of(owners: Seq<SourceOwners>, ip: Seq<char>) -> Option<Seq<char>>
    decreases owners.len(),
{
    if owners.len() == 0 {
        None
    } else if owners[0].ip@ == ip {
        if owners[0].users@.len() == 0 {
            None
        } else {
            Some(owners[0].users@[0]@)
        }
    } else {
        owner_of(owners.skip(1), ip)
    }
}

/// Whether a connection counts for `uid`: the node attributes it to them, or
/// to nobody and they are the likeliest user behind its address.
pub open spec fn counts_for(
    c: LiveConnection,
    uid: Seq<char>,
    owners: Seq<SourceOwners>,
) -> bool {
    match c.user {
        Some(u) => u@ == uid,
        None => c.source_ip@.len() > 0 && owner_of(owners, c.source_ip@) == Some(uid),
    }
}

/// Connections of one server that count for `uid`.
pub open spec fn own_connections(
    cs: Seq<LiveConnection>,
    uid: Seq<char>,
    owners: Seq<SourceOwners>,
) -> int
    decreases cs.len(),
{
    if cs.len() == 0 {
        0
    } else {
        own_connections(cs.drop_last(), uid, owners) + (if counts_for(cs.last(), uid, owners) {
            1int
        } else {
            0
        })
    }
}

/// Connections on all servers that count for `uid`.
pub open spec fn all_own(
    snaps: Seq<LiveSnapshot>,
    uid: Seq<char>,
    owners: Seq<SourceOwners>,
) -> int
    decreases snaps.len(),
{
    if snaps.len() == 0 {
        0
    } else {
        all_own(snaps.drop_last(), uid, owners) + own_connections(
            snaps.last().connections@,
            uid,
            owners,
        )
    }
}

/// Ids of the servers with a connection that counts for `uid`.
pub open spec fn online_servers(
    snaps: Seq<LiveSnapshot>,
    uid: Seq<char>,
    owners: Seq<SourceOwners>,
) -> Seq<Seq<char>>
    decreases snaps.len(),
{
    if snaps.len() == 0 {
        Seq::empty()
    } else {
        let before = online_servers(snaps.drop_last(), uid, owners);
        if own_connections(snaps.last().connections@, uid, owners) > 0 {
            before.push(snaps.last().server_id@)
        } else {
            before
        }
    }
}

/// All connections, whoever they belong to.
pub open spec fn connections_in(snaps: Seq<LiveSnapshot>) -> int
    decreases snaps.len(),
{
    if snaps.len() == 0 {
        0
    } else {
        connections_in(snaps.drop_last()) + snaps.last().connections@.len()
    }
}

proof fn lemma_connections_grow(snaps: Seq<LiveSnapshot>, k: int)
    requires
        0 <= k <= snaps.len(),
    ensures
        0 <= connections_in(snaps.take(k)) <= connections_in(snaps),
    decreases snaps.len(),
{
    if k == snaps.len() {
        assert(snaps.take(k) =~= snaps);
        if k > 0 {
            lemma_connections_grow(snaps.drop_last(), k - 1);
            assert(snaps.drop_last().take(k - 1) =~= snaps.drop_last());
        }
    } else {
        lemma_connections_grow(snaps.drop_last(), k);
        assert(snaps.drop_last().take(k) =~= snaps.take(k));
    }
}

fn find_owner(owners: &Vec<SourceOwners>, ip: &str, uid: &str) -> (r: bool)
    ensures
        r == (owner_of(owners@, ip@) == Some(uid@)),
{
    let mut i: usize = 0;
    assert(owners@.skip(0) =~= owners@);
    while i < owners.len()
        invariant
            i <= owners.len(),
            owner_of(owners@, ip@) == owner_of(owners@.skip(i as int), ip@),
        decreases owners.len() - i,
    {
        assert(owners@.skip(i as int).skip(1) =~= owners@.skip(i + 1));
        if same(owners[i].ip.as_str(), ip) {
            return owners[i].users.len() > 0 && same(owners[i].users[0].as_str(), uid);
        }
        i = i + 1;
    }
    false
}

fn count_own(cs: &Vec<LiveConnection>, uid: &str, owners: &Vec<SourceOwners>) -> (r: usize)
    ensures
        r == own_connections(cs@, uid@, owners@),
        r <= cs@.len(),
{
    let mut n: usize = 0;
    let mut i: usize = 0;
    while i < cs.len()
        invariant
            i <= cs.len(),
            n <= i,
            n == own_connections(cs@.take(i as int), uid@, owners@),
        decreases cs.len() - i,
    {
        assert(cs@.take(i + 1).drop_last() =~= cs@.take(i as int));
        let c = &cs[i];
        let own = match &c.user {
            Some(u) => same(u.as_str(), uid),
            None => !is_empty(c.source_ip.as_str()) && find_owner(
                owners,
                c.source_ip.as_str(),
                uid,
            ),
        };
        if own {
            n = n + 1;
        }
        i = i + 1;
    }
    assert(cs@.take(i as int) =~= cs@);
    n
}

/// The unattributed, non-empty source addresses of the first `n` connections.
pub open spec fn unattributed(cs: Seq<LiveConnection>, n: int) -> Seq<Seq<char>>
    decreases n,
{
    if n <= 0 {
        Seq::empty()
    } else {
        let before = unattributed(cs, n - 1);
        if cs[n - 1].user is None && cs[n - 1].source_ip@.len() > 0 {
            before.push(cs[n - 1].source_ip@)
        } else {
            before
        }
    }
}

/// The unattributed, non-empty source addresses of the first `n` servers.
pub open spec fn all_unattributed(snaps: Seq<LiveSnapshot>, n: int) -> Seq<Seq<char>>
    decreases n,
{
    if n <= 0 {
        Seq::empty()
    } else {
        all_unattributed(snaps, n - 1) + unattributed(
            snaps[n - 1].connections@,
            snaps[n - 1].connections@.len() as int,
        )
    }
}

/// The distinct addresses to join with past subscription fetches, in
/// ascending order: those of connections no node attributes to a user. With
/// none there is nothing to ask.
pub fn unresolved_sources(snaps: &Vec<LiveSnapshot>) -> (r: Vec<String>)
    ensures
        crate::lists::sorted_set(
            crate::text::texts(r@),
            all_unattributed(snaps@, snaps@.len() as int),
        ),
{
    let mut ips: Vec<String> = Vec::new();
    let mut k: usize = 0;
    assert(crate::text::texts(ips@) =~= Seq::<Seq<char>>::empty());
    while k < snaps.len()
        invariant
            k <= snaps.len(),
            crate::text::texts(ips@) == all_unattributed(snaps@, k as int),
        decreases snaps.len() - k,
    {
        let cs = &snaps[k].connections;
        let ghost base = crate::text::texts(ips@);
        let mut i: usize = 0;
        assert(base + unattributed(cs@, 0) =~= base);
        while i < cs.len()
            invariant
                i <= cs.len(),
                crate::text::texts(ips@) == base + unattributed(cs@, i as int),
            decreases cs.len() - i,
        {
            let ghost before = ips@;
            if cs[i].user.is_none() && !is_empty(cs[i].source_ip.as_str()) {
                ips.push(cs[i].source_ip.clone());
                assert(crate::text::texts(ips@) =~= crate::text::texts(before).push(
                    cs@[i as int].source_ip@,
                ));
                assert(crate::text::texts(ips@) =~= base + unattributed(cs@, i + 1));
            }
            i = i + 1;
        }
        k = k + 1;
    }
    distinct_sorted(&ips)
}

/// Presence of a user.
pub enum OnlineBadge {
    Online {
        /// Live connections.
        total: u32,
        /// Word for the connections.
        noun: &'static str,
        /// Word before the servers.
        preposition: &'static str,
        /// Ids of the servers, ascending.
        servers: Vec<String>,
        /// The server ids, comma-separated.
        server_list: String,
    },
    Offline {
        /// When they were last seen.
        seen: String,
    },
}

/// How long ago, in whole units.
pub open spec fn ago_text(secs: int, lang: Locale) -> Seq<char> {
    if secs < 60 {
        crate::locale::in_language(lang, "just now", "только что")@
    } else if secs < 3600 {
        crate::text::dec_text((secs / 60) as nat) + crate::locale::in_language(
            lang,
            "m ago",
            "м назад",
        )@
    } else if secs < 86_400 {
        crate::text::dec_text((secs / 3600) as nat) + crate::locale::in_language(
            lang,
            "h ago",
            "ч назад",
        )@
    } else {
        crate::text::dec_text((secs / 86_400) as nat) + crate::locale::in_language(
            lang,
            "d ago",
            "д назад",
        )@
    }
}

/// How long before `now` the instant `ts` was, in whole units.
pub open spec fn since_text(ts: UtcTime, lang: Locale, now: UtcTime) -> Seq<char> {
    ago_text(crate::time::whole_seconds(now.stamp() - ts.stamp()), lang)
}

/// How long before `now` the instant `ts` was, in whole units.
pub fn humanize_since_at(ts: UtcTime, lang: Locale, now: UtcTime) -> (r: String)
    ensures
        r@ == since_text(ts, lang, now),
{
    let secs: i64 = now.seconds_since(&ts);
    if secs < 60 {
        tr(lang, "just now", "только что").to_owned()
    } else if secs < 3600 {
        let n = dec(secs as u64 / 60);
        cat2(n.as_str(), tr(lang, "m ago", "м назад"))
    } else if secs < 86_400 {
        let n = dec(secs as u64 / 3600);
        cat2(n.as_str(), tr(lang, "h ago", "ч назад"))
    } else {
        let n = dec(secs as u64 / 86_400);
        cat2(n.as_str(), tr(lang, "d ago", "д назад"))
    }
}

/// How long before the current instant `ts` was, in whole units.
pub fn humanize_since(ts: UtcTime, lang: Locale) -> (r: String)
    ensures
        exists|now: UtcTime|
            0 <= now.seconds() && r@ == #[trigger] since_text(ts, lang, now),
{
    let now = utc_now();
    humanize_since_at(ts, lang, now)
}

/// An instant that is not yet reached reads as just now.
pub proof fn future_is_just_now(ts: UtcTime, lang: Locale, now: UtcTime)
    requires
        ts.stamp() >= now.stamp(),
    ensures
        since_text(ts, lang, now) == crate::locale::in_language(lang, "just now", "только что")@,
{
}

/// `b` is the badge of `uid` at `now`.
pub open spec fn badge_of(
    b: OnlineBadge,
    uid: Seq<char>,
    snaps: Seq<LiveSnapshot>,
    owners: Seq<SourceOwners>,
    last_seen: Option<UtcTime>,
    lang: Locale,
    now: UtcTime,
) -> bool {
    let n = all_own(snaps, uid, owners);
    if n > 0 {
        b matches OnlineBadge::Online { total, noun, preposition, servers, server_list } && {
            &&& total == n
            &&& noun == (if n == 1 {
                crate::locale::in_language(lang, "conn", "соединение")
            } else {
                crate::locale::in_language(lang, "conns", "соединений")
            })
            &&& preposition == (if servers@.len() == 1 {
                crate::locale::in_language(lang, "on ", "на ")
            } else {
                crate::locale::in_language(lang, "across ", "на ")
            })
            &&& crate::lists::sorted_set(
                crate::text::texts(servers@),
                online_servers(snaps, uid, owners),
            )
            &&& server_list@ == crate::text::join_text(crate::text::texts(servers@), ", "@)
        }
    } else {
        b matches OnlineBadge::Offline { seen } && seen@ == (match last_seen {
            Some(ts) => crate::locale::in_language(lang, "last seen ", "последний раз ")@
                + since_text(ts, lang, now),
            None => crate::locale::in_language(lang, "never connected", "ни разу не подключался")@,
        })
    }
}

/// The presence badge of `uid` at `now`: over the fresh snapshots of the
/// servers, with `owners` naming the likeliest users behind the addresses of
/// [`unresolved_sources`].
pub fn user_online_badge_at(
    uid: &str,
    snaps: &Vec<LiveSnapshot>,
    owners: &Vec<SourceOwners>,
    last_seen: Option<UtcTime>,
    lang: Locale,
    now: UtcTime,
) -> (r: OnlineBadge)
    requires
        connections_in(snaps@) <= u32::MAX,
    ensures
        badge_of(r, uid@, snaps@, owners@, last_seen, lang, now),
{
    let mut total: u32 = 0;
    let mut ids: Vec<String> = Vec::new();
    let mut k: usize = 0;
    assert(crate::text::texts(ids@) =~= Seq::<Seq<char>>::empty());
    while k < snaps.len()
        invariant
            k <= snaps.len(),
            connections_in(snaps@) <= u32::MAX,
            total == all_own(snaps@.take(k as int), uid@, owners@),
            total <= connections_in(snaps@.take(k as int)),
            crate::text::texts(ids@) == online_servers(snaps@.take(k as int), uid@, owners@),
        decreases snaps.len() - k,
    {
        assert(snaps@.take(k + 1).drop_last() =~= snaps@.take(k as int));
        proof {
            lemma_connections_grow(snaps@, k + 1);
        }
        let n: usize = count_own(&snaps[k].connections, uid, owners);
        if n > 0 {
            let ghost before = ids@;
            ids.push(snaps[k].server_id.clone());
            assert(crate::text::texts(ids@) =~= crate::text::texts(before).push(
                snaps@[k as int].server_id@,
            ));
        }
        total = total + n as u32;
        k = k + 1;
    }
    assert(snaps@.take(k as int) =~= snaps@);
    if total > 0 {
        let servers = distinct_sorted(&ids);
        let server_list = join(&servers, ", ");
        OnlineBadge::Online {
            total,
            noun: if total == 1 {
                tr(lang, "conn", "соединение")
            } else {
                tr(lang, "conns", "соединений")
            },
            preposition: if servers.len() == 1 {
                tr(lang, "on ", "на ")
            } else {
                tr(lang, "across ", "на ")
            },
            servers,
            server_list,
        }
    } else {
        let seen = match last_seen {
            Some(ts) => {
                let ago = humanize_since_at(ts, lang, now);
                cat2(tr(lang, "last seen ", "последний раз "), ago.as_str())
            },
            None => tr(lang, "never connected", "ни разу не подключался").to_owned(),
        };
        OnlineBadge::Offline { seen }
    }
}

/// The presence badge of `uid` at the current instant.
pub fn user_online_badge(
    uid: &str,
    snaps: &Vec<LiveSnapshot>,
    owners: &Vec<SourceOwners>,
    last_seen: Option<UtcTime>,
    lang: Locale,
) -> (r: OnlineBadge)
    requires
        connections_in(snaps@) <= u32::MAX,
    ensures
        exists|now: UtcTime|
            0 <= now.seconds() && #[trigger] badge_of(
                r,
                uid@,
                snaps@,
                owners@,
                last_seen,
                lang,
                now,
            ),
{
    let now = utc_now();
    user_online_badge_at(uid, snaps, owners, last_seen, lang, now)
}

/// A connection that a node attributes to somebody else never counts, whoever
/// is likeliest behind its address.
pub proof fn attribution_wins(c: LiveConnection, uid: Seq<char>, owners: Seq<SourceOwners>)
    requires
        c.user is Some,
        c.user->0@ != uid,
    ensures
        !counts_for(c, uid, owners),
{
}

} // verus!
