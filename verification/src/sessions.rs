//! Session timelines and top destinations of a user.
use crate::lists::distinct_sorted;
use crate::text::{cat2, cat4, dec, dec2};
use crate::time::{utc_now, UtcTime};
use vstd::prelude::*;

verus! {

/// Sessions listed on the page.
pub const SESSION_LIMIT: i64 = 20;

/// Destinations listed on the page.
pub const TOP_DESTINATIONS: u32 = 20;

/// Days of destination history on the page.
pub const DESTINATION_DAYS: u32 = 7;

/// Minutes after its last tick for which a session counts as live.
pub const LIVE_MINUTES: i64 = 6;

/// A window of activity of a user on a server.
pub struct Session {
    pub server_id: String,
    /// The server id, path-encoded.
    pub server_path: String,
    pub started_at: UtcTime,
    pub last_seen: UtcTime,
    pub conn_count_peak: u32,
}

/// What the page shows of a session beside its own fields.
pub struct SessionView {
    pub href: String,
    pub duration: String,
    pub live: bool,
}

/// Whole minutes of a session; none for one that ends before it starts.
pub open spec fn session_minutes(started: UtcTime, last: UtcTime) -> int {
    let secs = crate::time::whole_seconds(last.stamp() - started.stamp());
    if secs > 0 {
        secs / 60
    } else {
        0
    }
}

/// A duration of whole minutes in words. Activity is sampled every five
/// minutes, so less than a minute reads as `≤5m`.
pub open spec fn duration_text(mins: int) -> Seq<char> {
    if mins == 0 {
        "≤5m"@
    } else if mins >= 60 {
        crate::text::dec_text((mins / 60) as nat) + "h"@ + crate::text::dec2_text(
            (mins % 60) as nat,
        ) + "m"@
    } else {
        crate::text::dec_text(mins as nat) + "m"@
    }
}

/// `v` shows session `s` at `now`.
pub open spec fn session_view(v: SessionView, s: Session, now: UtcTime) -> bool {
    &&& v.href@ == "/admin/servers/"@ + s.server_path@
    &&& v.duration@ == duration_text(session_minutes(s.started_at, s.last_seen))
    &&& v.live == (now.stamp() - s.last_seen.stamp() < LIVE_MINUTES * 60 * crate::time::NANOS)
}

/// A session never reads as lasting zero minutes.
pub proof fn duration_never_zero(mins: int)
    requires
        mins >= 0,
    ensures
        duration_text(mins) != "0m"@,
{
    reveal_strlit("0m");
    reveal_strlit("≤5m");
    reveal_strlit("h");
    reveal_strlit("m");
    if mins == 0 {
        assert("≤5m"@.len() == 3);
    } else if mins >= 60 {
        lemma_dec_len(( mins / 60) as nat);
        assert(duration_text(mins).len() >= 4);
    } else if mins < 10 {
        assert(duration_text(mins)[0] == crate::text::digit_char(mins as nat));
        assert("0m"@[0] == '0');
    } else {
        lemma_dec_len(mins as nat);
        lemma_dec_len((mins / 10) as nat);
        assert(duration_text(mins).len() >= 3);
    }
}

proof fn lemma_dec_len(n: nat)
    ensures
        crate::text::dec_text(n).len() >= 1,
{
}

fn duration(mins: u64) -> (r: String)
    ensures
        r@ == duration_text(mins as int),
{
    if mins == 0 {
        "≤5m".to_owned()
    } else if mins >= 60 {
        let h = dec(mins / 60);
        let m = dec2(mins % 60);
        cat4(h.as_str(), "h", m.as_str(), "m")
    } else {
        let m = dec(mins);
        cat2(m.as_str(), "m")
    }
}

fn is_live(now: &UtcTime, last_seen: &UtcTime) -> (r: bool)
    ensures
        r == (now.stamp() - last_seen.stamp() < LIVE_MINUTES * 60 * crate::time::NANOS),
{
    let secs: i64 = now.seconds_since(last_seen);
    secs < LIVE_MINUTES * 60
}

/// `r` shows the sessions read at `now`, none where the read failed.
pub open spec fn sessions_view(
    r: Seq<SessionView>,
    rows: Option<Vec<Session>>,
    now: UtcTime,
) -> bool {
    match rows {
        None => r.len() == 0,
        Some(rows) => {
            &&& r.len() == rows@.len()
            &&& forall|i: int| 0 <= i < r.len() ==> session_view(#[trigger] r[i], rows@[i], now)
        },
    }
}

/// The session rows at `now`.
pub fn user_sessions_section_at(rows: &Option<Vec<Session>>, now: UtcTime) -> (r: Vec<SessionView>)
    ensures
        sessions_view(r@, *rows, now),
{
    let mut r: Vec<SessionView> = Vec::new();
    match rows {
        None => r,
        Some(rows) => {
            let mut i: usize = 0;
            while i < rows.len()
                invariant
                    i <= rows.len(),
                    r.len() == i,
                    forall|j: int| 0 <= j < i ==> session_view(#[trigger] r@[j], rows@[j], now),
                decreases rows.len() - i,
            {
                let s = &rows[i];
                let secs: i64 = s.last_seen.seconds_since(&s.started_at);
                let mins: u64 = if secs > 0 {
                    secs as u64 / 60
                } else {
                    0
                };
                r.push(
                    SessionView {
                        href: cat2("/admin/servers/", s.server_path.as_str()),
                        duration: duration(mins),
                        live: is_live(&now, &s.last_seen),
                    },
                );
                i = i + 1;
            }
            r
        },
    }
}

/// The session rows at the current instant.
pub fn user_sessions_section(rows: &Option<Vec<Session>>) -> (r: Vec<SessionView>)
    ensures
        exists|now: UtcTime|
            0 <= now.seconds() && #[trigger] sessions_view(r@, *rows, now),
{
    let now = utc_now();
    user_sessions_section_at(rows, now)
}

/// The addresses among the first `n` labels, in order.
pub open spec fn addresses(labels: Seq<Option<String>>, n: int) -> Seq<Seq<char>>
    decreases n,
{
    if n <= 0 {
        Seq::empty()
    } else {
        match labels[n - 1] {
            Some(ip) => addresses(labels, n - 1).push(ip@),
            None => addresses(labels, n - 1),
        }
    }
}

/// The distinct addresses to look up by reverse DNS, in ascending order, from
/// the address that each destination label holds, if any.
pub fn user_top_destinations_section(labels: &Vec<Option<String>>) -> (r: Vec<String>)
    ensures
        crate::lists::sorted_set(
            crate::text::texts(r@),
            addresses(labels@, labels@.len() as int),
        ),
{
    let mut ips: Vec<String> = Vec::new();
    let mut i: usize = 0;
    while i < labels.len()
        invariant
            i <= labels.len(),
            crate::text::texts(ips@) == addresses(labels@, i as int),
        decreases labels.len() - i,
    {
        match &labels[i] {
            Some(ip) => {
                let ghost before = ips@;
                ips.push(ip.clone());
                assert(crate::text::texts(ips@) =~= crate::text::texts(before).push(ip@));
            },
            None => {},
        }
        i = i + 1;
    }
    distinct_sorted(&ips)
}

} // verus!
