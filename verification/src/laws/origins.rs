//! Laws of fetch origins and sessions.
use crate::locale::Locale;
use crate::origins::{
    GeoCell, GeoEntry, OriginTables, SourcePlace, SubDeviceFp, SubOriginAsn, SubOriginCountry,
    SubOriginIp, UaVerdict, VpnUserSourceIpRow,
};
use crate::sessions::{Session, SessionView};
use crate::time::UtcTime;
use vstd::prelude::*;

verus! {

/// A version 4 address as one number.
pub open spec fn quad(a: int, b: int, c: int, d: int) -> int {
    ((a * 256 + b) * 256 + c) * 256 + d
}

/// A version 4 address is set apart by the block of numbers it lies in:
/// 127.0.0.0/8 is loopback; 10.0.0.0/8, 172.16.0.0/12 and 192.168.0.0/16 are
/// private; 100.64.0.0/10 is carrier-grade NAT; 169.254.0.0/16 is link-local;
/// 0.0.0.0 is unspecified; every other address is public.
pub proof fn v4_blocks(o: Seq<u8>)
    requires
        o.len() == 4,
    ensures
        ({
            let n = quad(o[0] as int, o[1] as int, o[2] as int, o[3] as int);
            let class = crate::origins::reserved_v4(o);
            let loopback = quad(127, 0, 0, 0) <= n <= quad(127, 255, 255, 255);
            let private = quad(10, 0, 0, 0) <= n <= quad(10, 255, 255, 255) || quad(172, 16, 0, 0)
                <= n <= quad(172, 31, 255, 255) || quad(192, 168, 0, 0) <= n <= quad(
                192,
                168,
                255,
                255,
            );
            let cgnat = quad(100, 64, 0, 0) <= n <= quad(100, 127, 255, 255);
            let local = quad(169, 254, 0, 0) <= n <= quad(169, 254, 255, 255);
            &&& loopback ==> class == Some("loopback")
            &&& private ==> class == Some("private/LAN")
            &&& cgnat ==> class == Some("CGNAT")
            &&& local ==> class == Some("link-local")
            &&& n == 0 ==> class == Some("unspecified")
            &&& !loopback && !private && !cgnat && !local && n != 0 ==> class is None
        }),
{
}

/// A version 6 address is set apart by its first segment, fc00 to fdff for
/// unique local and fe80 to febf for link-local addresses, or as ::1 or ::.
pub proof fn v6_blocks(s: Seq<u16>)
    requires
        s.len() == 8,
    ensures
        ({
            let class = crate::origins::reserved_v6(s);
            let zeros = s[0] == 0 && s[1] == 0 && s[2] == 0 && s[3] == 0 && s[4] == 0 && s[5] == 0
                && s[6] == 0;
            &&& zeros && s[7] == 1 ==> class == Some("loopback")
            &&& zeros && s[7] == 0 ==> class == Some("unspecified")
            &&& 0xfc00 <= s[0] < 0xfe00 ==> class == Some("private/ULA")
            &&& 0xfe80 <= s[0] < 0xfec0 ==> class == Some("link-local")
            &&& !(zeros && s[7] <= 1) && !(0xfc00 <= s[0] < 0xfe00) && !(0xfe80 <= s[0] < 0xfec0)
                ==> class is None
        }),
{
    let zeros = s[0] == 0 && s[1] == 0 && s[2] == 0 && s[3] == 0 && s[4] == 0 && s[5] == 0 && s[6]
        == 0;
    if zeros {
        assert forall|i: int| 0 <= i < 7 implies #[trigger] s[i] == 0 by {}
    }
}

/// A place shows what is recorded; failing that, why there can be nothing; and
/// only then that it is unknown.
pub proof fn recorded_place_comes_first(
    c: GeoCell,
    value: Option<String>,
    ip: Option<crate::origins::IpAddress>,
    lang: Locale,
)
    requires
        crate::origins::geo_cell(c, value, ip, lang),
    ensures
        c is Known <==> value is Some && value->0@.len() > 0,
        c matches GeoCell::Known(s) ==> s@ == value->0@,
        c is Reserved <==> !(c is Known) && crate::origins::reserved_class(ip) is Some,
        c matches GeoCell::Reserved(s) ==> crate::origins::reserved_class(ip) == Some(s),
        c matches GeoCell::Unknown(s) ==> (lang is En ==> s@ == "(unknown)"@) && (lang is Ru ==> s@
            == "(неизвестно)"@),
        crate::origins::reserved_class(None) is None,
{
}

/// Every row of the three breakdowns has its own line, and the estimate leads
/// with the client families exactly where some are known.
pub proof fn breakdowns_row_by_row(
    t: OriginTables,
    by_country: Seq<SubOriginCountry>,
    by_asn: Seq<SubOriginAsn>,
    by_ip: Seq<SubOriginIp>,
    fp: SubDeviceFp,
    lang: Locale,
    i: int,
)
    requires
        crate::origins::origin_tables(t, by_country, by_asn, by_ip, fp, lang),
    ensures
        fp.distinct_device_classes > 0 ==> t.has_families && t.lead == fp.distinct_device_classes,
        fp.distinct_device_classes == 0 ==> !t.has_families && t.lead == fp.distinct_uas,
        lang is En && t.has_families ==> t.lead_noun@ == "client families"@,
        lang is En && !t.has_families ==> t.lead_noun@ == "distinct user-agents"@,
        lang is Ru && t.has_families ==> t.lead_noun@ == "клиентских семейств"@,
        lang is Ru && !t.has_families ==> t.lead_noun@ == "уникальных user-agent"@,
        t.countries@.len() == by_country.len(),
        t.asns@.len() == by_asn.len(),
        t.ips@.len() == by_ip.len(),
        0 <= i < by_country.len() ==> crate::origins::geo_cell(
            t.countries@[i],
            by_country[i].country,
            None,
            lang,
        ),
        0 <= i < by_asn.len() ==> crate::origins::geo_cell(t.asns@[i].asn, by_asn[i].asn, None, lang)
            && crate::origins::geo_cell(t.asns@[i].country, by_asn[i].country, None, lang),
        0 <= i < by_ip.len() ==> {
            &&& crate::origins::geo_cell(t.ips@[i].country, by_ip[i].country, by_ip[i].address, lang)
            &&& crate::origins::geo_cell(t.ips@[i].asn, by_ip[i].asn, by_ip[i].address, lang)
            &&& crate::origins::origin_time(
                t.ips@[i].first_seen,
                by_ip[i].first_seen@,
                crate::origins::rfc3339_instant(by_ip[i].first_seen@),
            )
            &&& crate::origins::origin_time(
                t.ips@[i].last_seen,
                by_ip[i].last_seen@,
                crate::origins::rfc3339_instant(by_ip[i].last_seen@),
            )
        },
{
    if 0 <= i < by_asn.len() {
        assert(crate::origins::asn_view(t.asns@[i], by_asn[i], lang));
    }
    if 0 <= i < by_ip.len() {
        assert(crate::origins::ip_view(t.ips@[i], by_ip[i], lang));
    }
}

/// Entry `e` is the first for the address.
pub open spec fn first_geo(geo: Seq<GeoEntry>, ip: Seq<char>, e: int) -> bool {
    &&& 0 <= e < geo.len()
    &&& geo[e].ip@ == ip
    &&& forall|j: int| 0 <= j < e ==> (#[trigger] geo[j]).ip@ != ip
}

/// The first entry for an address counts, and no entry gives none.
pub proof fn first_entry_counts(geo: Seq<GeoEntry>, ip: Seq<char>, e: int)
    ensures
        first_geo(geo, ip, e) ==> crate::origins::geo_of(geo, ip) == Some(geo[e]),
        (forall|j: int| 0 <= j < geo.len() ==> (#[trigger] geo[j]).ip@ != ip)
            ==> crate::origins::geo_of(geo, ip) is None,
    decreases geo.len(),
{
    if geo.len() > 0 && geo[0].ip@ != ip {
        let rest = geo.skip(1);
        first_entry_counts(rest, ip, e - 1);
        if first_geo(geo, ip, e) {
            assert forall|j: int| 0 <= j < e - 1 implies (#[trigger] rest[j]).ip@ != ip by {
                assert(geo[j + 1].ip@ != ip);
            }
        }
        if forall|j: int| 0 <= j < geo.len() ==> (#[trigger] geo[j]).ip@ != ip {
            assert forall|j: int| 0 <= j < rest.len() implies (#[trigger] rest[j]).ip@ != ip by {
                assert(geo[j + 1].ip@ != ip);
            }
        }
    } else if geo.len() > 0 && first_geo(geo, ip, e) && e > 0 {
        assert(geo[0].ip@ != ip);
    }
}

/// A source address shows the country that the first entry for it records, with
/// the provider where that is recorded too, and otherwise what the address
/// itself tells.
pub proof fn source_shows_the_first_entry(
    p: SourcePlace,
    r: VpnUserSourceIpRow,
    geo: Seq<GeoEntry>,
    lang: Locale,
    e: int,
)
    requires
        crate::origins::source_place(p, r, geo, lang),
    ensures
        first_geo(geo, r.source_ip@, e) && geo[e].country is Some && geo[e].country->0@.len() > 0
            ==> (p matches SourcePlace::Known { country, asn } && country@ == geo[e].country->0@ && (
        asn is Some <==> geo[e].asn is Some && geo[e].asn->0@.len() > 0) && (asn is Some
            ==> asn->0@ == geo[e].asn->0@)),
        first_geo(geo, r.source_ip@, e) && !(geo[e].country is Some && geo[e].country->0@.len() > 0)
            ==> (p matches SourcePlace::Fallback(c) && crate::origins::geo_cell(
            c,
            None,
            r.address,
            lang,
        )),
        (forall|j: int| 0 <= j < geo.len() ==> (#[trigger] geo[j]).ip@ != r.source_ip@) ==> (p
            matches SourcePlace::Fallback(c) && crate::origins::geo_cell(c, None, r.address, lang)),
{
    first_entry_counts(geo, r.source_ip@, e);
}

/// Addresses that count toward sharing are those of no reserved class.
pub proof fn reserved_addresses_do_not_count(rows: Seq<VpnUserSourceIpRow>, n: int)
    requires
        0 <= n <= rows.len(),
    ensures
        crate::origins::public_rows(rows, n) == rows.take(n).filter(
            |r: VpnUserSourceIpRow| crate::origins::reserved_class(r.address) is None,
        ).len(),
    decreases n,
{
    reveal(Seq::filter);
    if n > 0 {
        reserved_addresses_do_not_count(rows, n - 1);
        assert(rows.take(n).drop_last() =~= rows.take(n - 1));
    }
}

/// Three networks or more suggest a shared URL, whatever the addresses; three
/// addresses or more in at most one network suggest roaming; anything else
/// suggests nothing. Each verdict has its own label.
pub proof fn spread_suggests_sharing(ips: u64, networks: u64)
    ensures
        crate::origins::verdict_of(ips, networks) == UaVerdict::LikelyShared <==> networks > 2,
        crate::origins::verdict_of(ips, networks) == UaVerdict::LikelyRoaming <==> networks < 2
            && ips > 2,
        UaVerdict::LikelyShared.label_text()@ == "likely shared URL"@,
        UaVerdict::LikelyRoaming.label_text()@ == "likely roaming"@,
        UaVerdict::Unlabeled.label_text()@ == "—"@,
{
}

/// A session lasts the whole minutes between its start and its last tick,
/// printed as hours and minutes from an hour on, and as at most five minutes
/// where that is none. It is live for six minutes after its last tick and leads
/// to its own server.
pub proof fn session_reads_as_it_lasted(
    v: SessionView,
    s: Session,
    now: UtcTime,
    hours: int,
    minutes: int,
)
    requires
        crate::sessions::session_view(v, s, now),
        hours >= 0,
        0 <= minutes < 60,
    ensures
        ({
            let lasted = s.last_seen.stamp() - s.started_at.stamp();
            let minute: int = 60_000_000_000;
            let total = 60 * hours + minutes;
            &&& lasted < minute ==> v.duration@ == "≤5m"@
            &&& hours == 0 && minutes > 0 && minutes * minute <= lasted < (minutes + 1) * minute
                ==> v.duration@ == crate::text::dec_text(minutes as nat) + "m"@
            &&& hours > 0 && total * minute <= lasted < (total + 1) * minute ==> v.duration@
                == crate::text::dec_text(hours as nat) + "h"@ + crate::text::dec2_text(
                minutes as nat,
            ) + "m"@
            &&& v.live <==> now.stamp() - s.last_seen.stamp() < 6 * minute
            &&& v.href@ == "/admin/servers/"@ + s.server_path@
        }),
{
    let lasted = s.last_seen.stamp() - s.started_at.stamp();
    let secs = crate::time::whole_seconds(lasted);
    let total = 60 * hours + minutes;
    if total * 60_000_000_000 <= lasted < (total + 1) * 60_000_000_000 {
        assert(secs / 60 == total);
        assert(total / 60 == hours && total % 60 == minutes);
    }
}

/// An address is looked up exactly where some destination names it.
pub proof fn named_addresses_are_looked_up(
    labels: Seq<Option<String>>,
    n: int,
    ip: Seq<char>,
)
    requires
        0 <= n <= labels.len(),
    ensures
        crate::sessions::addresses(labels, n).contains(ip) <==> exists|i: int|
            0 <= i < n && #[trigger] labels[i] is Some && labels[i]->0@ == ip,
    decreases n,
{
    if n > 0 {
        let here = crate::sessions::addresses(labels, n);
        let before = crate::sessions::addresses(labels, n - 1);
        named_addresses_are_looked_up(labels, n - 1, ip);
        if before.contains(ip) {
            let k = before.index_of(ip);
            assert(here[k] == ip);
        }
        if here.contains(ip) {
            let k = here.index_of(ip);
            if k < before.len() {
                assert(before[k] == ip);
            } else {
                assert(labels[n - 1] is Some);
            }
        }
        if labels[n - 1] is Some && labels[n - 1]->0@ == ip {
            assert(here[here.len() - 1] == ip);
        }
    }
}

} // verus!
