//! Where subscriptions are fetched from and which clients fetch them.
use crate::locale::{tr, Locale};
use crate::text::{is_empty, same};
use chrono::{DateTime, Utc};
use vstd::prelude::*;

verus! {

/// An address by its octets or its 16-bit segments.
#[derive(Clone, Copy, Debug)]
pub enum IpAddress {
    V4([u8; 4]),
    V6([u16; 8]),
}

/// The class of a version 4 address that is not routed publicly: loopback
/// 127/8, private 10/8, 172.16/12 and 192.168/16, carrier-grade NAT 100.64/10,
/// link-local 169.254/16, and 0.0.0.0.
pub open spec fn reserved_v4(o: Seq<u8>) -> Option<&'static str> {
    if o[0] == 127 {
        Some("loopback")
    } else if o[0] == 10 || (o[0] == 172 && 16 <= o[1] <= 31) || (o[0] == 192 && o[1] == 168) {
        Some("private/LAN")
    } else if o[0] == 100 && 64 <= o[1] <= 127 {
        Some("CGNAT")
    } else if o[0] == 169 && o[1] == 254 {
        Some("link-local")
    } else if o[0] == 0 && o[1] == 0 && o[2] == 0 && o[3] == 0 {
        Some("unspecified")
    } else {
        None
    }
}

/// The class of a version 6 address that is not routed publicly: loopback
/// ::1, the unspecified ::, unique local fc00::/7 and link-local fe80::/10.
pub open spec fn reserved_v6(s: Seq<u16>) -> Option<&'static str> {
    let head_zero = forall|i: int| 0 <= i < 7 ==> #[trigger] s[i] == 0;
    if head_zero && s[7] == 1 {
        Some("loopback")
    } else if head_zero && s[7] == 0 {
        Some("unspecified")
    } else if 0xfc00 <= s[0] <= 0xfdff {
        Some("private/ULA")
    } else if 0xfe80 <= s[0] <= 0xfebf {
        Some("link-local")
    } else {
        None
    }
}

/// The class of a parsed address; none for what is no address.
pub open spec fn reserved_class(ip: Option<IpAddress>) -> Option<&'static str> {
    match ip {
        None => None,
        Some(IpAddress::V4(o)) => reserved_v4(o@),
        Some(IpAddress::V6(s)) => reserved_v6(s@),
    }
}

/// A short label for an address that is not routed publicly. None for a
/// public address and for what is no address.
pub fn classify_reserved_ip(ip: Option<IpAddress>) -> (r: Option<&'static str>)
    ensures
        r == reserved_class(ip),
{
    match ip {
        None => None,
        Some(IpAddress::V4(o)) => {
            if o[0] == 127 {
                Some("loopback")
            } else if o[0] == 10 || (o[0] == 172 && 16 <= o[1] && o[1] <= 31) || (o[0] == 192
                && o[1] == 168) {
                Some("private/LAN")
            } else if o[0] == 100 && 64 <= o[1] && o[1] <= 127 {
                Some("CGNAT")
            } else if o[0] == 169 && o[1] == 254 {
                Some("link-local")
            } else if o[0] == 0 && o[1] == 0 && o[2] == 0 && o[3] == 0 {
                Some("unspecified")
            } else {
                None
            }
        },
        Some(IpAddress::V6(s)) => {
            let head_zero = s[0] == 0 && s[1] == 0 && s[2] == 0 && s[3] == 0 && s[4] == 0 && s[5]
                == 0 && s[6] == 0;
            if head_zero && s[7] == 1 {
                Some("loopback")
            } else if head_zero && s[7] == 0 {
                Some("unspecified")
            } else if 0xfc00 <= s[0] && s[0] <= 0xfdff {
                Some("private/ULA")
            } else if 0xfe80 <= s[0] && s[0] <= 0xfebf {
                Some("link-local")
            } else {
                None
            }
        },
    }
}

/// What is known of the place behind an address.
pub enum GeoCell {
    /// The recorded value.
    Known(String),
    /// The class of an address that is not routed publicly.
    Reserved(&'static str),
    /// Nothing is recorded.
    Unknown(&'static str),
}

/// The marker for a place that is not recorded.
pub open spec fn unknown_text(lang: Locale) -> &'static str {
    crate::locale::in_language(lang, "(unknown)", "(неизвестно)")
}

/// A recorded value that is present and not empty.
pub open spec fn present(value: Option<String>) -> bool {
    value matches Some(v) && v@.len() > 0
}

/// `c` shows `value`, or where it is missing the class of the address `ip`,
/// or else the marker for the unknown.
pub open spec fn geo_cell(
    c: GeoCell,
    value: Option<String>,
    ip: Option<IpAddress>,
    lang: Locale,
) -> bool {
    if present(value) {
        c matches GeoCell::Known(s) && s@ == value->0@
    } else {
        match reserved_class(ip) {
            Some(class) => c matches GeoCell::Reserved(s) && s == class,
            None => c matches GeoCell::Unknown(s) && s == unknown_text(lang),
        }
    }
}

/// The cell for a missing place: the class of the address, or else the marker
/// for the unknown.
pub fn ip_geo_fallback(ip: Option<IpAddress>, lang: Locale) -> (r: GeoCell)
    ensures
        geo_cell(r, None, ip, lang),
{
    match classify_reserved_ip(ip) {
        Some(class) => GeoCell::Reserved(class),
        None => GeoCell::Unknown(tr(lang, "(unknown)", "(неизвестно)")),
    }
}

fn place(value: &Option<String>, ip: Option<IpAddress>, lang: Locale) -> (r: GeoCell)
    ensures
        geo_cell(r, *value, ip, lang),
{
    match value {
        Some(v) => {
            if is_empty(v.as_str()) {
                ip_geo_fallback(ip, lang)
            } else {
                GeoCell::Known(v.clone())
            }
        },
        None => ip_geo_fallback(ip, lang),
    }
}

/// Second and nanosecond of the instant that an RFC 3339 text denotes, none
/// for any other text.
pub uninterp spec fn rfc3339_instant(raw: Seq<char>) -> Option<(int, int)>;

/// chrono's `DateTime::parse_from_rfc3339`, brought to UTC. Which texts it
/// takes is not spelled out here, only that text determines instant.
#[verifier::external_body]
fn parse_rfc3339(raw: &str) -> (r: Option<(i64, u32)>)
    ensures
        rfc3339_instant(raw@) == (match r {
            Some(t) => Some((t.0 as int, t.1 as int)),
            None => None,
        }),
{
    match DateTime::parse_from_rfc3339(raw) {
        Ok(t) => {
            let at = t.with_timezone(&Utc);
            Some((at.timestamp(), at.timestamp_subsec_nanos()))
        },
        Err(_) => None,
    }
}

/// A recorded time: an instant to print, or the text as it stands.
pub enum OriginTime {
    At { secs: i64, nanos: u32 },
    Raw(String),
}

/// `t` is the instant that `raw` was read as, or the text itself.
pub open spec fn origin_time(t: OriginTime, raw: Seq<char>, read: Option<(int, int)>) -> bool {
    match read {
        Some(at) => t matches OriginTime::At { secs, nanos } && secs == at.0 && nanos == at.1,
        None => t matches OriginTime::Raw(s) && s@ == raw,
    }
}

/// The recorded time `raw`, where it was read as `read`.
pub fn origin_ts(raw: &str, read: Option<(i64, u32)>) -> (r: OriginTime)
    ensures
        origin_time(
            r,
            raw@,
            match read {
                Some(t) => Some((t.0 as int, t.1 as int)),
                None => None,
            },
        ),
{
    match read {
        Some(t) => OriginTime::At { secs: t.0, nanos: t.1 },
        None => OriginTime::Raw(raw.to_owned()),
    }
}

/// A recorded time to print: the instant of an RFC 3339 text, any other text
/// as it stands.
pub fn format_origin_ts(raw: &str) -> (r: OriginTime)
    ensures
        origin_time(r, raw@, rfc3339_instant(raw@)),
{
    let read = parse_rfc3339(raw);
    origin_ts(raw, read)
}

/// Fetches from one country.
pub struct SubOriginCountry {
    pub country: Option<String>,
    pub fetches: u64,
    pub ips: u64,
    pub asns: u64,
}

/// Fetches through one provider.
pub struct SubOriginAsn {
    pub asn: Option<String>,
    pub country: Option<String>,
    pub fetches: u64,
    pub ips: u64,
}

/// Fetches from one address.
pub struct SubOriginIp {
    pub ip: String,
    /// The address, if the text is one.
    pub address: Option<IpAddress>,
    pub country: Option<String>,
    pub asn: Option<String>,
    pub fetches: u64,
    pub first_seen: String,
    pub last_seen: String,
}

/// How many different clients fetch.
#[derive(Clone, Copy, Debug)]
pub struct SubDeviceFp {
    pub distinct_device_classes: u64,
    pub distinct_uas: u64,
}

/// Place of a provider row.
pub struct AsnView {
    pub asn: GeoCell,
    pub country: GeoCell,
}

/// Place and times of an address row.
pub struct IpView {
    pub country: GeoCell,
    pub asn: GeoCell,
    pub first_seen: OriginTime,
    pub last_seen: OriginTime,
}

/// The three breakdowns and the estimate of clients.
pub struct OriginTables {
    /// Whether client families are known; they lead the estimate then, with
    /// the count of user agents as upper bound.
    pub has_families: bool,
    /// The leading number.
    pub lead: u64,
    /// What the leading number counts.
    pub lead_noun: &'static str,
    pub countries: Vec<GeoCell>,
    pub asns: Vec<AsnView>,
    pub ips: Vec<IpView>,
}

/// The subscription origins section of a user.
pub enum SubscriptionOrigins {
    /// No external fetch is recorded.
    Empty,
    Shown(OriginTables),
}

/// `v` shows row `r` of the provider breakdown.
pub open spec fn asn_view(v: AsnView, r: SubOriginAsn, lang: Locale) -> bool {
    geo_cell(v.asn, r.asn, None, lang) && geo_cell(v.country, r.country, None, lang)
}

/// `v` shows row `r` of the address breakdown.
pub open spec fn ip_view(v: IpView, r: SubOriginIp, lang: Locale) -> bool {
    &&& geo_cell(v.country, r.country, r.address, lang)
    &&& geo_cell(v.asn, r.asn, r.address, lang)
    &&& origin_time(v.first_seen, r.first_seen@, rfc3339_instant(r.first_seen@))
    &&& origin_time(v.last_seen, r.last_seen@, rfc3339_instant(r.last_seen@))
}

/// `t` shows the breakdowns row by row.
pub open spec fn origin_tables(
    t: OriginTables,
    by_country: Seq<SubOriginCountry>,
    by_asn: Seq<SubOriginAsn>,
    by_ip: Seq<SubOriginIp>,
    fp: SubDeviceFp,
    lang: Locale,
) -> bool {
    &&& t.has_families == (fp.distinct_device_classes > 0)
    &&& t.lead == (if t.has_families {
        fp.distinct_device_classes
    } else {
        fp.distinct_uas
    })
    &&& t.lead_noun == (if t.has_families {
        crate::locale::in_language(lang, "client families", "клиентских семейств")
    } else {
        crate::locale::in_language(lang, "distinct user-agents", "уникальных user-agent")
    })
    &&& t.countries@.len() == by_country.len()
    &&& t.asns@.len() == by_asn.len()
    &&& t.ips@.len() == by_ip.len()
    &&& forall|i: int|
        0 <= i < by_country.len() ==> geo_cell(
            #[trigger] t.countries@[i],
            by_country[i].country,
            None,
            lang,
        )
    &&& forall|i: int| 0 <= i < by_asn.len() ==> asn_view(#[trigger] t.asns@[i], by_asn[i], lang)
    &&& forall|i: int| 0 <= i < by_ip.len() ==> ip_view(#[trigger] t.ips@[i], by_ip[i], lang)
}

/// Where one subscription was fetched from, by country, provider and address.
pub fn user_subscription_origins_section(
    by_country: &Vec<SubOriginCountry>,
    by_asn: &Vec<SubOriginAsn>,
    by_ip: &Vec<SubOriginIp>,
    device_fp: &SubDeviceFp,
    lang: Locale,
) -> (r: SubscriptionOrigins)
    ensures
        r is Empty <==> by_country@.len() == 0 && by_asn@.len() == 0 && by_ip@.len() == 0,
        r matches SubscriptionOrigins::Shown(t) ==> origin_tables(
            t,
            by_country@,
            by_asn@,
            by_ip@,
            *device_fp,
            lang,
        ),
{
    if by_country.len() == 0 && by_asn.len() == 0 && by_ip.len() == 0 {
        return SubscriptionOrigins::Empty;
    }
    let mut countries: Vec<GeoCell> = Vec::new();
    let mut i: usize = 0;
    while i < by_country.len()
        invariant
            i <= by_country.len(),
            countries.len() == i,
            forall|j: int|
                0 <= j < i ==> geo_cell(
                    #[trigger] countries@[j],
                    by_country@[j].country,
                    None,
                    lang,
                ),
        decreases by_country.len() - i,
    {
        countries.push(place(&by_country[i].country, None, lang));
        i = i + 1;
    }
    let mut asns: Vec<AsnView> = Vec::new();
    let mut i: usize = 0;
    while i < by_asn.len()
        invariant
            i <= by_asn.len(),
            asns.len() == i,
            forall|j: int| 0 <= j < i ==> asn_view(#[trigger] asns@[j], by_asn@[j], lang),
        decreases by_asn.len() - i,
    {
        asns.push(
            AsnView {
                asn: place(&by_asn[i].asn, None, lang),
                country: place(&by_asn[i].country, None, lang),
            },
        );
        i = i + 1;
    }
    let mut ips: Vec<IpView> = Vec::new();
    let mut i: usize = 0;
    while i < by_ip.len()
        invariant
            i <= by_ip.len(),
            ips.len() == i,
            forall|j: int| 0 <= j < i ==> ip_view(#[trigger] ips@[j], by_ip@[j], lang),
        decreases by_ip.len() - i,
    {
        let row = &by_ip[i];
        ips.push(
            IpView {
                country: place(&row.country, row.address, lang),
                asn: place(&row.asn, row.address, lang),
                first_seen: format_origin_ts(row.first_seen.as_str()),
                last_seen: format_origin_ts(row.last_seen.as_str()),
            },
        );
        i = i + 1;
    }
    let has_families = device_fp.distinct_device_classes > 0;
    SubscriptionOrigins::Shown(
        OriginTables {
            has_families,
            lead: if has_families {
                device_fp.distinct_device_classes
            } else {
                device_fp.distinct_uas
            },
            lead_noun: if has_families {
                tr(lang, "client families", "клиентских семейств")
            } else {
                tr(lang, "distinct user-agents", "уникальных user-agent")
            },
            countries,
            asns,
            ips,
        },
    )
}

/// An address that a user connected from.
pub struct VpnUserSourceIpRow {
    pub source_ip: String,
    /// The address, if the text is one.
    pub address: Option<IpAddress>,
    pub hit_count: u64,
}

/// What the GeoIP tables say of an address.
pub struct GeoEntry {
    pub ip: String,
    pub country: Option<String>,
    pub asn: Option<String>,
}

/// Place of a source address.
pub enum SourcePlace {
    Known { country: String, asn: Option<String> },
    Fallback(GeoCell),
}

/// The first entry for `ip`.
pub open spec fn geo_of(geo: Seq<GeoEntry>, ip: Seq<char>) -> Option<GeoEntry>
    decreases geo.len(),
{
    if geo.len() == 0 {
        None
    } else if geo[0].ip@ == ip {
        Some(geo[0])
    } else {
        geo_of(geo.skip(1), ip)
    }
}

/// `p` shows the place of row `r`: country and, if recorded, provider; the
/// fallback of the address where no country is recorded.
pub open spec fn source_place(
    p: SourcePlace,
    r: VpnUserSourceIpRow,
    geo: Seq<GeoEntry>,
    lang: Locale,
) -> bool {
    match geo_of(geo, r.source_ip@) {
        Some(e) => if present(e.country) {
            p matches SourcePlace::Known { country, asn } && country@ == e.country->0@
                && crate::text::opt_string(asn) == (if present(e.asn) {
                Some(e.asn->0@)
            } else {
                None
            })
        } else {
            p matches SourcePlace::Fallback(c) && geo_cell(c, None, r.address, lang)
        },
        None => p matches SourcePlace::Fallback(c) && geo_cell(c, None, r.address, lang),
    }
}

/// Rows among the first `n` whose address is not known to be unroutable.
pub open spec fn public_rows(rows: Seq<VpnUserSourceIpRow>, n: int) -> int
    decreases n,
{
    if n <= 0 {
        0
    } else {
        public_rows(rows, n - 1) + (if reserved_class(rows[n - 1].address) is None {
            1int
        } else {
            0
        })
    }
}

/// The source addresses section of a user.
pub struct SourceIps {
    /// Addresses that count toward sharing.
    pub distinct_public: usize,
    pub places: Vec<SourcePlace>,
}

fn geo_index(geo: &Vec<GeoEntry>, ip: &str) -> (r: Option<usize>)
    ensures
        match r {
            Some(i) => i < geo.len() && geo_of(geo@, ip@) == Some(geo@[i as int]),
            None => geo_of(geo@, ip@) is None,
        },
{
    let mut i: usize = 0;
    assert(geo@.skip(0) =~= geo@);
    while i < geo.len()
        invariant
            i <= geo.len(),
            geo_of(geo@, ip@) == geo_of(geo@.skip(i as int), ip@),
        decreases geo.len() - i,
    {
        assert(geo@.skip(i as int).skip(1) =~= geo@.skip(i + 1));
        if same(geo[i].ip.as_str(), ip) {
            return Some(i);
        }
        i = i + 1;
    }
    None
}

fn present_copy(value: &Option<String>) -> (r: Option<String>)
    ensures
        crate::text::opt_string(r) == (if present(*value) {
            Some(value->0@)
        } else {
            None
        }),
{
    match value {
        Some(v) => if is_empty(v.as_str()) {
            None
        } else {
            Some(v.clone())
        },
        None => None,
    }
}

/// The addresses a user connected from, with what is known of their place.
pub fn user_source_ips_section(
    rows: &Vec<VpnUserSourceIpRow>,
    geo: &Vec<GeoEntry>,
    lang: Locale,
) -> (r: SourceIps)
    ensures
        r.distinct_public == public_rows(rows@, rows@.len() as int),
        r.places@.len() == rows@.len(),
        forall|i: int|
            0 <= i < rows@.len() ==> source_place(#[trigger] r.places@[i], rows@[i], geo@, lang),
{
    let mut distinct_public: usize = 0;
    let mut places: Vec<SourcePlace> = Vec::new();
    let mut i: usize = 0;
    while i < rows.len()
        invariant
            i <= rows.len(),
            places.len() == i,
            distinct_public <= i,
            distinct_public == public_rows(rows@, i as int),
            forall|j: int|
                0 <= j < i ==> source_place(#[trigger] places@[j], rows@[j], geo@, lang),
        decreases rows.len() - i,
    {
        let row = &rows[i];
        if classify_reserved_ip(row.address).is_none() {
            distinct_public = distinct_public + 1;
        }
        let found = match geo_index(geo, row.source_ip.as_str()) {
            Some(k) => match present_copy(&geo[k].country) {
                Some(country) => Some(
                    SourcePlace::Known { country, asn: present_copy(&geo[k].asn) },
                ),
                None => None,
            },
            None => None,
        };
        places.push(
            match found {
                Some(p) => p,
                None => SourcePlace::Fallback(ip_geo_fallback(row.address, lang)),
            },
        );
        i = i + 1;
    }
    SourceIps { distinct_public, places }
}

/// What the spread of one client over networks suggests.
#[derive(Clone, Copy, PartialEq, Eq, Structural, Debug)]
pub enum UaVerdict {
    LikelyShared,
    LikelyRoaming,
    Unlabeled,
}

impl UaVerdict {
    /// The label of the verdict.
    pub open spec fn label_text(self) -> &'static str {
        match self {
            UaVerdict::LikelyShared => "likely shared URL",
            UaVerdict::LikelyRoaming => "likely roaming",
            UaVerdict::Unlabeled => "—",
        }
    }

    /// The style of the verdict cell.
    pub open spec fn style_text(self) -> &'static str {
        match self {
            UaVerdict::LikelyShared =>
                "padding: 5px 8px; color: var(--acc); font-style: italic;",
            UaVerdict::LikelyRoaming =>
                "padding: 5px 8px; color: var(--soft); font-style: italic;",
            UaVerdict::Unlabeled => "padding: 5px 8px; color: var(--mute);",
        }
    }

    /// The label of the verdict.
    pub fn label(&self) -> (r: &'static str)
        ensures
            r == self.label_text(),
    {
        match self {
            UaVerdict::LikelyShared => "likely shared URL",
            UaVerdict::LikelyRoaming => "likely roaming",
            UaVerdict::Unlabeled => "—",
        }
    }

    /// The style of the verdict cell.
    pub fn style(&self) -> (r: &'static str)
        ensures
            r == self.style_text(),
    {
        match self {
            UaVerdict::LikelyShared =>
                "padding: 5px 8px; color: var(--acc); font-style: italic;",
            UaVerdict::LikelyRoaming =>
                "padding: 5px 8px; color: var(--soft); font-style: italic;",
            UaVerdict::Unlabeled => "padding: 5px 8px; color: var(--mute);",
        }
    }
}

/// Three or more networks suggest a shared URL; three or more addresses
/// within one network a roaming device.
pub open spec fn verdict_of(distinct_ips: u64, distinct_slash16: u64) -> UaVerdict {
    if distinct_slash16 >= 3 {
        UaVerdict::LikelyShared
    } else if distinct_ips >= 3 && distinct_slash16 <= 1 {
        UaVerdict::LikelyRoaming
    } else {
        UaVerdict::Unlabeled
    }
}

/// What the spread of a client over addresses and networks suggests.
pub fn ua_verdict(distinct_ips: u64, distinct_slash16: u64) -> (r: UaVerdict)
    ensures
        r == verdict_of(distinct_ips, distinct_slash16),
{
    if distinct_slash16 >= 3 {
        UaVerdict::LikelyShared
    } else if distinct_ips >= 3 && distinct_slash16 <= 1 {
        UaVerdict::LikelyRoaming
    } else {
        UaVerdict::Unlabeled
    }
}

/// Fetches of one user agent.
pub struct UaCluster {
    pub ua: Option<String>,
    pub hits: u64,
    pub distinct_ips: u64,
    pub distinct_slash16: u64,
}

/// Whether a user's URL is likely shared: three or more providers, or a
/// client whose spread suggests it.
pub fn user_is_likely_shared(distinct_asns: u64, clusters: &Vec<UaCluster>) -> (r: bool)
    ensures
        r == (distinct_asns >= 3 || exists|i: int|
            0 <= i < clusters@.len() && verdict_of(
                (#[trigger] clusters@[i]).distinct_ips,
                clusters@[i].distinct_slash16,
            ) is LikelyShared),
{
    if distinct_asns >= 3 {
        return true;
    }
    let mut i: usize = 0;
    while i < clusters.len()
        invariant
            i <= clusters.len(),
            forall|j: int|
                0 <= j < i ==> !(verdict_of(
                    (#[trigger] clusters@[j]).distinct_ips,
                    clusters@[j].distinct_slash16,
                ) is LikelyShared),
        decreases clusters.len() - i,
    {
        let shared = match ua_verdict(clusters[i].distinct_ips, clusters[i].distinct_slash16) {
            UaVerdict::LikelyShared => true,
            _ => false,
        };
        if shared {
            return true;
        }
        i = i + 1;
    }
    false
}

/// The user-agent section of a user.
pub enum UaClusters {
    /// The clusters could not be read.
    Unavailable,
    /// There is nothing to show.
    Hidden,
    /// The verdict on each cluster.
    Shown(Vec<UaVerdict>),
}

/// The verdict on each cluster of user agents.
pub fn ua_clusters_section(clusters: &Option<Vec<UaCluster>>) -> (r: UaClusters)
    ensures
        match *clusters {
            None => r is Unavailable,
            Some(cs) => if cs@.len() == 0 {
                r is Hidden
            } else {
                r matches UaClusters::Shown(vs) && vs@ == cs@.map_values(
                    |c: UaCluster| verdict_of(c.distinct_ips, c.distinct_slash16),
                )
            },
        },
{
    let cs = match clusters {
        None => {
            return UaClusters::Unavailable;
        },
        Some(cs) => cs,
    };
    if cs.len() == 0 {
        return UaClusters::Hidden;
    }
    let mut vs: Vec<UaVerdict> = Vec::new();
    let mut i: usize = 0;
    while i < cs.len()
        invariant
            i <= cs.len(),
            vs.len() == i,
            forall|j: int|
                0 <= j < i ==> #[trigger] vs@[j] == verdict_of(
                    cs@[j].distinct_ips,
                    cs@[j].distinct_slash16,
                ),
        decreases cs.len() - i,
    {
        vs.push(ua_verdict(cs[i].distinct_ips, cs[i].distinct_slash16));
        i = i + 1;
    }
    assert(vs@ =~= cs@.map_values(
        |c: UaCluster| verdict_of(c.distinct_ips, c.distinct_slash16),
    ));
    UaClusters::Shown(vs)
}

} // verus!
