//! Subscription URLs, QR codes and the share links of a user.
use crate::lists::has_text;
use crate::text::{cat2, cat4, same};
use qrcode::render::svg;
use qrcode::QrCode;
use vstd::prelude::*;

verus! {

/// Host that subscription URLs name where the request names none.
pub const DEFAULT_HOST: &'static str = "127.0.0.1:18402";

/// The host a subscription URL names.
pub open spec fn sub_host(host: Option<&str>) -> Seq<char> {
    match host {
        Some(h) => h@,
        None => DEFAULT_HOST@,
    }
}

/// The subscription URL for `sub_token` on the host of the request.
pub fn sub_url(host: Option<&str>, sub_token: &str) -> (r: String)
    ensures
        r@ == "http://"@ + sub_host(host) + "/sub/"@ + sub_token@,
{
    let h = match host {
        Some(h) => h,
        None => DEFAULT_HOST,
    };
    cat4("http://", h, "/sub/", sub_token)
}

/// The public subscription URL of a device; `valid` says whether the id has
/// the shape of a device id, without which there is no URL.
pub fn ninitux_url(device_id: &str, valid: bool) -> (r: Option<String>)
    ensures
        r is Some <==> valid,
        r matches Some(url) ==> url@ == "https://ninitux.com/api/v1/app/config/"@ + device_id@,
{
    if valid {
        Some(cat2("https://ninitux.com/api/v1/app/config/", device_id))
    } else {
        None
    }
}

/// Display side of every QR code, in CSS pixels.
pub const QR_DISPLAY_PX: u32 = 220;

/// Side of the card around a QR code: the code and twelve pixels on each side.
pub const QR_CARD_PX: u32 = QR_DISPLAY_PX + 24;

/// Colour of the dark modules.
pub const QR_DARK: &'static str = "#1a1611";

/// Colour of the light modules.
pub const QR_LIGHT: &'static str = "#f5efe6";

/// The SVG of the QR code of `data` at least `px` pixels wide in the given
/// colours, or why there is none.
pub uninterp spec fn qr_image(
    data: Seq<char>,
    px: int,
    dark: Seq<char>,
    light: Seq<char>,
) -> Result<Seq<char>, Seq<char>>;

/// qrcode's `QrCode::new` on the bytes of `data`, rendered as SVG with a
/// quiet zone; the text of its error where the data cannot be encoded. The
/// image is determined by data, size and colours; which image that is is not
/// spelled out.
#[verifier::external_body]
fn render_qr(data: &str, px: u32, dark: &str, light: &str) -> (r: Result<String, String>)
    requires
        0 < px <= 1_000_000,
    ensures
        qr_image(data@, px as int, dark@, light@) == (match r {
            Ok(s) => Ok(s@),
            Err(e) => Err(e@),
        }),
{
    let code = QrCode::new(data.as_bytes()).map_err(|e| e.to_string())?;
    Ok(
        code.render::<svg::Color<'_>>()
            .min_dimensions(px, px)
            .quiet_zone(true)
            .dark_color(svg::Color(dark))
            .light_color(svg::Color(light))
            .build(),
    )
}

/// A QR code to show, or the notice in its place.
pub enum QrView {
    Image(String),
    Failed(String),
}

/// `v` shows the rendered image, or the notice with the reason.
pub open spec fn qr_view(v: QrView, image: Result<Seq<char>, Seq<char>>) -> bool {
    match image {
        Ok(svg) => v matches QrView::Image(s) && s@ == svg,
        Err(e) => v matches QrView::Failed(s) && s@ == "QR generation failed: "@ + e,
    }
}

/// What to show for a rendering result.
pub fn qr_card(image: Result<String, String>) -> (r: QrView)
    ensures
        qr_view(
            r,
            match image {
                Ok(s) => Ok(s@),
                Err(e) => Err(e@),
            },
        ),
{
    match image {
        Ok(svg) => QrView::Image(svg),
        Err(e) => QrView::Failed(cat2("QR generation failed: ", e.as_str())),
    }
}

/// The QR code of `url` in the page's colours.
pub fn qr_svg(url: &str) -> (r: QrView)
    ensures
        qr_view(r, qr_image(url@, QR_DISPLAY_PX as int, QR_DARK@, QR_LIGHT@)),
{
    let image = render_qr(url, QR_DISPLAY_PX, QR_DARK, QR_LIGHT);
    qr_card(image)
}

/// A card to hand one link over.
pub struct ShareLinkCard {
    pub qr: QrView,
    /// The masked one-line preview.
    pub preview: String,
    /// The link to copy.
    pub link: String,
}

/// The card of `link`, whose masked form is `masked`. What is scanned is what
/// is copied: the code encodes the very link that the card offers.
pub fn share_link_card(link: &str, masked: &str) -> (r: ShareLinkCard)
    ensures
        r.link@ == link@,
        r.preview@ == masked@,
        qr_view(r.qr, qr_image(r.link@, QR_DISPLAY_PX as int, QR_DARK@, QR_LIGHT@)),
{
    ShareLinkCard { qr: qr_svg(link), preview: masked.to_owned(), link: link.to_owned() }
}

/// A user as links are rendered for them.
pub struct RenderUser {
    pub id: String,
    pub uuid: String,
}

/// The uuid of the first of `peers` with id `id`.
pub open spec fn peer_uuid(peers: Seq<RenderUser>, id: Seq<char>) -> Option<Seq<char>>
    decreases peers.len(),
{
    if peers.len() == 0 {
        None
    } else if peers[0].id@ == id {
        Some(peers[0].uuid@)
    } else {
        peer_uuid(peers.skip(1), id)
    }
}

/// The uuid `user` has on a server with these peers: that of their own entry,
/// or the global one without an entry.
pub open spec fn server_uuid(user: RenderUser, peers: Seq<RenderUser>) -> Seq<char> {
    match peer_uuid(peers, user.id@) {
        Some(uuid) => uuid,
        None => user.uuid@,
    }
}

/// `user` as the links of one server are rendered for them.
pub struct PerServerUser {
    pub user: RenderUser,
    /// The peers lack the user although there are some.
    pub missing: bool,
}

/// `user` with the uuid they have on the server of `peers`.
pub fn user_for_server_render(user: &RenderUser, peers: &Vec<RenderUser>) -> (r: PerServerUser)
    ensures
        r.user.id@ == user.id@,
        r.user.uuid@ == server_uuid(*user, peers@),
        r.missing == (peers@.len() > 0 && peer_uuid(peers@, user.id@) is None),
{
    let mut i: usize = 0;
    assert(peers@.skip(0) =~= peers@);
    while i < peers.len()
        invariant
            i <= peers.len(),
            peer_uuid(peers@, user.id@) == peer_uuid(peers@.skip(i as int), user.id@),
        decreases peers.len() - i,
    {
        assert(peers@.skip(i as int).skip(1) =~= peers@.skip(i + 1));
        if same(peers[i].id.as_str(), user.id.as_str()) {
            return PerServerUser {
                user: RenderUser { id: user.id.clone(), uuid: peers[i].uuid.clone() },
                missing: false,
            };
        }
        i = i + 1;
    }
    PerServerUser {
        user: RenderUser { id: user.id.clone(), uuid: user.uuid.clone() },
        missing: peers.len() > 0,
    }
}

/// A granted server as far as links depend on it.
pub struct ShareServer {
    pub id: String,
    pub enabled_protocols: Vec<String>,
    pub kernels: Vec<String>,
}

/// The users granted on a server.
pub struct ServerPeers {
    pub server_id: String,
    pub users: Vec<RenderUser>,
}

/// The peers of the first entry for `id`, none without an entry.
pub open spec fn peers_of(peers: Seq<ServerPeers>, id: Seq<char>) -> Seq<RenderUser>
    decreases peers.len(),
{
    if peers.len() == 0 {
        Seq::empty()
    } else if peers[0].server_id@ == id {
        peers[0].users@
    } else {
        peers_of(peers.skip(1), id)
    }
}

/// Which links to collect.
#[derive(Clone, Copy, PartialEq, Eq, Structural, Debug)]
pub enum LinkKind {
    /// AmneziaVPN deep links.
    Amnezia,
    /// AmneziaWG links.
    Awg,
}

/// Whether a server can give links of a kind: it serves WireGuard, and for
/// AmneziaWG runs that kernel too.
pub open spec fn serves(s: ShareServer, kind: LinkKind) -> bool {
    &&& crate::text::texts(s.enabled_protocols@).contains("wireguard"@)
    &&& kind is Awg ==> crate::text::texts(s.kernels@).contains("amneziawg"@)
}

/// A link to render: for which server, protocol and user.
pub struct LinkJob {
    /// Position of the server.
    pub server: usize,
    /// Position of the protocol among those the server has enabled; 0 where
    /// the kind of link fixes the protocol.
    pub protocol: usize,
    pub user: RenderUser,
    /// The peers of the server lack the user although there are some.
    pub missing: bool,
}

/// `j` renders a link of `user` on the server at position `at`.
pub open spec fn job_for(
    j: LinkJob,
    at: int,
    protocol: int,
    user: RenderUser,
    servers: Seq<ShareServer>,
    peers: Seq<ServerPeers>,
) -> bool {
    let own = peers_of(peers, servers[at].id@);
    &&& j.server == at
    &&& j.protocol == protocol
    &&& j.user.id@ == user.id@
    &&& j.user.uuid@ == server_uuid(user, own)
    &&& j.missing == (own.len() > 0 && peer_uuid(own, user.id@) is None)
}

/// Positions among the first `n` servers that can give links of a kind and
/// have secrets, in order.
pub open spec fn link_servers(
    servers: Seq<ShareServer>,
    with_secrets: Seq<Seq<char>>,
    kind: LinkKind,
    n: int,
) -> Seq<int>
    decreases n,
{
    if n <= 0 {
        Seq::empty()
    } else {
        let before = link_servers(servers, with_secrets, kind, n - 1);
        if serves(servers[n - 1], kind) && with_secrets.contains(servers[n - 1].id@) {
            before.push(n - 1)
        } else {
            before
        }
    }
}

/// `jobs` has one job per server of [`link_servers`], in order.
pub open spec fn link_jobs(
    jobs: Seq<LinkJob>,
    user: RenderUser,
    servers: Seq<ShareServer>,
    with_secrets: Seq<Seq<char>>,
    peers: Seq<ServerPeers>,
    kind: LinkKind,
) -> bool {
    let at = link_servers(servers, with_secrets, kind, servers.len() as int);
    &&& jobs.len() == at.len()
    &&& forall|k: int|
        0 <= k < jobs.len() ==> job_for(#[trigger] jobs[k], at[k], 0, user, servers, peers)
}

fn job(
    user: &RenderUser,
    servers: &Vec<ShareServer>,
    peers: &Vec<ServerPeers>,
    at: usize,
    protocol: usize,
) -> (r: LinkJob)
    requires
        at < servers@.len(),
    ensures
        job_for(r, at as int, protocol as int, *user, servers@, peers@),
{
    let id = servers[at].id.as_str();
    let none: Vec<RenderUser> = Vec::new();
    let mut i: usize = 0;
    assert(peers@.skip(0) =~= peers@);
    while i < peers.len()
        invariant
            i <= peers.len(),
            at < servers@.len(),
            id@ == servers@[at as int].id@,
            peers_of(peers@, id@) == peers_of(peers@.skip(i as int), id@),
        decreases peers.len() - i,
    {
        assert(peers@.skip(i as int).skip(1) =~= peers@.skip(i + 1));
        if same(peers[i].server_id.as_str(), id) {
            let own = user_for_server_render(user, &peers[i].users);
            return LinkJob { server: at, protocol, user: own.user, missing: own.missing };
        }
        i = i + 1;
    }
    assert(none@ =~= peers_of(peers@, id@));
    let own = user_for_server_render(user, &none);
    LinkJob { server: at, protocol, user: own.user, missing: own.missing }
}

fn can_serve(s: &ShareServer, kind: LinkKind) -> (r: bool)
    ensures
        r == serves(*s, kind),
{
    has_text(&s.enabled_protocols, "wireguard") && match kind {
        LinkKind::Awg => has_text(&s.kernels, "amneziawg"),
        LinkKind::Amnezia => true,
    }
}

/// The links of a kind to render for `user`: one per granted server that can
/// give them and whose secrets are at hand.
pub fn plan_links(
    user: &RenderUser,
    servers: &Vec<ShareServer>,
    with_secrets: &Vec<String>,
    peers: &Vec<ServerPeers>,
    kind: LinkKind,
) -> (r: Vec<LinkJob>)
    ensures
        link_jobs(r@, *user, servers@, crate::text::texts(with_secrets@), peers@, kind),
{
    let mut r: Vec<LinkJob> = Vec::new();
    let ghost secrets = crate::text::texts(with_secrets@);
    let mut i: usize = 0;
    while i < servers.len()
        invariant
            i <= servers.len(),
            secrets == crate::text::texts(with_secrets@),
            r@.len() == link_servers(servers@, secrets, kind, i as int).len(),
            forall|k: int|
                0 <= k < r@.len() ==> job_for(
                    #[trigger] r@[k],
                    link_servers(servers@, secrets, kind, i as int)[k],
                    0,
                    *user,
                    servers@,
                    peers@,
                ),
        decreases servers.len() - i,
    {
        if can_serve(&servers[i], kind) && has_text(with_secrets, servers[i].id.as_str()) {
            r.push(job(user, servers, peers, i, 0));
        }
        i = i + 1;
    }
    r
}

/// Positions among the first `n` protocols of a server that the registry
/// knows, in order.
pub open spec fn known_protocols(
    protocols: Seq<String>,
    registered: Seq<Seq<char>>,
    n: int,
) -> Seq<int>
    decreases n,
{
    if n <= 0 {
        Seq::empty()
    } else {
        let before = known_protocols(protocols, registered, n - 1);
        if registered.contains(protocols[n - 1]@) {
            before.push(n - 1)
        } else {
            before
        }
    }
}

/// Positions of servers and protocols among the first `n` servers whose
/// secrets are at hand, server by server.
pub open spec fn share_points(
    servers: Seq<ShareServer>,
    with_secrets: Seq<Seq<char>>,
    registered: Seq<Seq<char>>,
    n: int,
) -> Seq<(int, int)>
    decreases n,
{
    if n <= 0 {
        Seq::empty()
    } else {
        let before = share_points(servers, with_secrets, registered, n - 1);
        if with_secrets.contains(servers[n - 1].id@) {
            before + known_protocols(
                servers[n - 1].enabled_protocols@,
                registered,
                servers[n - 1].enabled_protocols@.len() as int,
            ).map_values(|p: int| (n - 1, p))
        } else {
            before
        }
    }
}

/// `jobs` has one job per pair of server and protocol in `at`.
pub open spec fn jobs_at(
    jobs: Seq<LinkJob>,
    at: Seq<(int, int)>,
    user: RenderUser,
    servers: Seq<ShareServer>,
    peers: Seq<ServerPeers>,
) -> bool {
    &&& jobs.len() == at.len()
    &&& forall|k: int|
        0 <= k < jobs.len() ==> job_for(
            #[trigger] jobs[k],
            at[k].0,
            at[k].1,
            user,
            servers,
            peers,
        )
}

/// The links to render for `user`: one per granted server whose secrets are
/// at hand and per protocol of it that the registry knows.
pub fn plan_share_links(
    user: &RenderUser,
    servers: &Vec<ShareServer>,
    with_secrets: &Vec<String>,
    registered: &Vec<String>,
    peers: &Vec<ServerPeers>,
) -> (r: Vec<LinkJob>)
    ensures
        jobs_at(
            r@,
            share_points(
                servers@,
                crate::text::texts(with_secrets@),
                crate::text::texts(registered@),
                servers@.len() as int,
            ),
            *user,
            servers@,
            peers@,
        ),
{
    let mut r: Vec<LinkJob> = Vec::new();
    let ghost secrets = crate::text::texts(with_secrets@);
    let ghost known = crate::text::texts(registered@);
    let mut i: usize = 0;
    while i < servers.len()
        invariant
            i <= servers.len(),
            secrets == crate::text::texts(with_secrets@),
            known == crate::text::texts(registered@),
            jobs_at(
                r@,
                share_points(servers@, secrets, known, i as int),
                *user,
                servers@,
                peers@,
            ),
        decreases servers.len() - i,
    {
        if has_text(with_secrets, servers[i].id.as_str()) {
            let protocols = &servers[i].enabled_protocols;
            let ghost before = share_points(servers@, secrets, known, i as int);
            let ghost tag = |p: int| (i as int, p);
            let mut p: usize = 0;
            assert(before + known_protocols(protocols@, known, 0).map_values(tag) =~= before);
            while p < protocols.len()
                invariant
                    p <= protocols.len(),
                    i < servers.len(),
                    protocols@ == servers@[i as int].enabled_protocols@,
                    known == crate::text::texts(registered@),
                    tag == (|p: int| (i as int, p)),
                    jobs_at(
                        r@,
                        before + known_protocols(protocols@, known, p as int).map_values(tag),
                        *user,
                        servers@,
                        peers@,
                    ),
                decreases protocols.len() - p,
            {
                if has_text(registered, protocols[p].as_str()) {
                    let ghost done = known_protocols(protocols@, known, p as int);
                    r.push(job(user, servers, peers, i, p));
                    assert(before + done.push(p as int).map_values(tag) =~= (before
                        + done.map_values(tag)).push((i as int, p as int)));
                }
                p = p + 1;
            }
            assert(before + known_protocols(
                protocols@,
                known,
                protocols@.len() as int,
            ).map_values(tag) =~= share_points(servers@, secrets, known, i + 1));
        }
        i = i + 1;
    }
    r
}

/// A rendered link and where it belongs.
pub struct ShareLink {
    pub server_id: String,
    /// Position of the job it came from.
    pub job: usize,
    pub link: String,
}

/// `l` is the link that job `at` gave.
pub open spec fn link_of(
    l: ShareLink,
    at: int,
    jobs: Seq<LinkJob>,
    links: Seq<Option<String>>,
    servers: Seq<ShareServer>,
) -> bool {
    &&& l.job == at
    &&& l.server_id@ == servers[jobs[at].server as int].id@
    &&& links[at] matches Some(text) && l.link@ == text@
}

/// Positions among the first `n` results that hold a link, in order.
pub open spec fn rendered(links: Seq<Option<String>>, n: int) -> Seq<int>
    decreases n,
{
    if n <= 0 {
        Seq::empty()
    } else {
        let before = rendered(links, n - 1);
        if links[n - 1] is Some {
            before.push(n - 1)
        } else {
            before
        }
    }
}

/// The links that could be rendered, in the order of the jobs; what failed is
/// left out.
pub fn collect_links(
    jobs: &Vec<LinkJob>,
    links: &Vec<Option<String>>,
    servers: &Vec<ShareServer>,
) -> (r: Vec<ShareLink>)
    requires
        jobs@.len() == links@.len(),
        forall|k: int| 0 <= k < jobs@.len() ==> (#[trigger] jobs@[k]).server < servers@.len(),
    ensures
        r@.len() == rendered(links@, links@.len() as int).len(),
        forall|k: int|
            0 <= k < r@.len() ==> link_of(
                #[trigger] r@[k],
                rendered(links@, links@.len() as int)[k],
                jobs@,
                links@,
                servers@,
            ),
{
    let mut r: Vec<ShareLink> = Vec::new();
    let mut i: usize = 0;
    while i < jobs.len()
        invariant
            i <= jobs.len(),
            jobs@.len() == links@.len(),
            forall|k: int| 0 <= k < jobs@.len() ==> (#[trigger] jobs@[k]).server < servers@.len(),
            r@.len() == rendered(links@, i as int).len(),
            forall|k: int|
                0 <= k < r@.len() ==> link_of(
                    #[trigger] r@[k],
                    rendered(links@, i as int)[k],
                    jobs@,
                    links@,
                    servers@,
                ),
        decreases jobs.len() - i,
    {
        match &links[i] {
            Some(l) => {
                let at: usize = jobs[i].server;
                assert(jobs@[i as int].server < servers@.len());
                r.push(ShareLink { server_id: servers[at].id.clone(), job: i, link: l.clone() });
            },
            None => {},
        }
        i = i + 1;
    }
    r
}

/// Every planned link belongs to a granted server that can give it and whose
/// secrets are at hand.
pub proof fn planned_links_are_eligible(
    servers: Seq<ShareServer>,
    with_secrets: Seq<Seq<char>>,
    kind: LinkKind,
    n: int,
    k: int,
)
    requires
        0 <= n <= servers.len(),
        0 <= k < link_servers(servers, with_secrets, kind, n).len(),
    ensures
        0 <= link_servers(servers, with_secrets, kind, n)[k] < n,
        serves(servers[link_servers(servers, with_secrets, kind, n)[k]], kind),
        with_secrets.contains(servers[link_servers(servers, with_secrets, kind, n)[k]].id@),
    decreases n,
{
    let before = link_servers(servers, with_secrets, kind, n - 1);
    if k < before.len() {
        planned_links_are_eligible(servers, with_secrets, kind, n - 1, k);
    }
}

/// Every granted server that can give a link and whose secrets are at hand is
/// planned for.
pub proof fn eligible_links_are_planned(
    servers: Seq<ShareServer>,
    with_secrets: Seq<Seq<char>>,
    kind: LinkKind,
    n: int,
    i: int,
)
    requires
        0 <= i < n <= servers.len(),
        serves(servers[i], kind),
        with_secrets.contains(servers[i].id@),
    ensures
        link_servers(servers, with_secrets, kind, n).contains(i),
    decreases n,
{
    let before = link_servers(servers, with_secrets, kind, n - 1);
    let now = link_servers(servers, with_secrets, kind, n);
    if i == n - 1 {
        assert(now[now.len() - 1] == i);
    } else {
        eligible_links_are_planned(servers, with_secrets, kind, n - 1, i);
        let k = before.index_of(i);
        assert(now[k] == i);
    }
}

/// A server and one of its protocols have a share link: the server's secrets
/// are at hand and the registry knows the protocol.
pub open spec fn shareable(
    servers: Seq<ShareServer>,
    with_secrets: Seq<Seq<char>>,
    registered: Seq<Seq<char>>,
    point: (int, int),
) -> bool {
    &&& 0 <= point.0 < servers.len()
    &&& with_secrets.contains(servers[point.0].id@)
    &&& 0 <= point.1 < servers[point.0].enabled_protocols@.len()
    &&& registered.contains(servers[point.0].enabled_protocols@[point.1]@)
}

/// One pair of server and protocol comes before another: by server, then by
/// protocol.
pub open spec fn point_before(a: (int, int), b: (int, int)) -> bool {
    a.0 < b.0 || (a.0 == b.0 && a.1 < b.1)
}

proof fn lemma_known_protocols(protocols: Seq<String>, registered: Seq<Seq<char>>, n: int)
    requires
        0 <= n <= protocols.len(),
    ensures
        forall|k: int|
            0 <= k < known_protocols(protocols, registered, n).len() ==> 0
                <= #[trigger] known_protocols(protocols, registered, n)[k] < n
                && registered.contains(
                protocols[known_protocols(protocols, registered, n)[k]]@,
            ),
        forall|i: int|
            0 <= i < n && registered.contains(#[trigger] protocols[i]@) ==> known_protocols(
                protocols,
                registered,
                n,
            ).contains(i),
        forall|j: int, k: int|
            0 <= j < k < known_protocols(protocols, registered, n).len()
                ==> #[trigger] known_protocols(protocols, registered, n)[j]
                < #[trigger] known_protocols(protocols, registered, n)[k],
    decreases n,
{
    if n > 0 {
        lemma_known_protocols(protocols, registered, n - 1);
        let before = known_protocols(protocols, registered, n - 1);
        let all = known_protocols(protocols, registered, n);
        assert forall|i: int|
            0 <= i < n && registered.contains(#[trigger] protocols[i]@) implies all.contains(i) by {
            if i < n - 1 {
                assert(before.contains(i));
                assert(all[before.index_of(i)] == i);
            } else {
                assert(all[before.len() as int] == i);
            }
        }
    }
}

/// `at` lists exactly the pairs of the first `n` servers that have a share
/// link, each once, server by server and protocol by protocol.
pub open spec fn lists_shareable(
    at: Seq<(int, int)>,
    servers: Seq<ShareServer>,
    with_secrets: Seq<Seq<char>>,
    registered: Seq<Seq<char>>,
    n: int,
) -> bool {
    &&& forall|k: int|
        0 <= k < at.len() ==> shareable(servers, with_secrets, registered, #[trigger] at[k])
            && at[k].0 < n
    &&& forall|point: (int, int)|
        #![trigger shareable(servers, with_secrets, registered, point)]
        shareable(servers, with_secrets, registered, point) && point.0 < n ==> at.contains(point)
    &&& forall|j: int, k: int|
        0 <= j < k < at.len() ==> point_before(#[trigger] at[j], #[trigger] at[k])
}

proof fn lemma_share_points(
    servers: Seq<ShareServer>,
    with_secrets: Seq<Seq<char>>,
    registered: Seq<Seq<char>>,
    n: int,
)
    requires
        0 <= n <= servers.len(),
    ensures
        lists_shareable(
            share_points(servers, with_secrets, registered, n),
            servers,
            with_secrets,
            registered,
            n,
        ),
    decreases n,
{
    let at = share_points(servers, with_secrets, registered, n);
    if n > 0 {
        lemma_share_points(servers, with_secrets, registered, n - 1);
        let before = share_points(servers, with_secrets, registered, n - 1);
        let own = servers[n - 1].enabled_protocols@;
        let known = known_protocols(own, registered, own.len() as int);
        lemma_known_protocols(own, registered, own.len() as int);
        if with_secrets.contains(servers[n - 1].id@) {
            let added = known.map_values(|p: int| (n - 1, p));
            assert(at == before + added);
            assert forall|k: int| 0 <= k < at.len() implies shareable(
                servers,
                with_secrets,
                registered,
                #[trigger] at[k],
            ) && at[k].0 < n by {
                if k < before.len() {
                    assert(at[k] == before[k]);
                } else {
                    assert(at[k] == (n - 1, known[k - before.len()]));
                }
            }
            assert forall|point: (int, int)|
                #![trigger shareable(servers, with_secrets, registered, point)]
                shareable(servers, with_secrets, registered, point) && point.0 < n implies at.contains(
                point,
            ) by {
                if point.0 < n - 1 {
                    assert(before.contains(point));
                    assert(at[before.index_of(point)] == point);
                } else {
                    assert(registered.contains(own[point.1]@));
                    let k = known.index_of(point.1);
                    assert(at[before.len() + k] == point);
                }
            }
            assert forall|j: int, k: int| 0 <= j < k < at.len() implies point_before(
                #[trigger] at[j],
                #[trigger] at[k],
            ) by {
                if k < before.len() {
                    assert(at[j] == before[j] && at[k] == before[k]);
                } else if j < before.len() {
                    assert(at[j] == before[j]);
                    assert(at[k] == (n - 1, known[k - before.len()]));
                } else {
                    assert(at[j] == (n - 1, known[j - before.len()]));
                    assert(at[k] == (n - 1, known[k - before.len()]));
                    assert(known[j - before.len()] < known[k - before.len()]);
                }
            }
        } else {
            assert(at == before);
        }
    }
}

/// Every planned share link is for a server and protocol that have one.
pub proof fn planned_share_links_are_eligible(
    jobs: Seq<LinkJob>,
    user: RenderUser,
    servers: Seq<ShareServer>,
    with_secrets: Seq<Seq<char>>,
    registered: Seq<Seq<char>>,
    peers: Seq<ServerPeers>,
    k: int,
)
    requires
        jobs_at(
            jobs,
            share_points(servers, with_secrets, registered, servers.len() as int),
            user,
            servers,
            peers,
        ),
        0 <= k < jobs.len(),
    ensures
        shareable(
            servers,
            with_secrets,
            registered,
            (jobs[k].server as int, jobs[k].protocol as int),
        ),
{
    lemma_share_points(servers, with_secrets, registered, servers.len() as int);
    let at = share_points(servers, with_secrets, registered, servers.len() as int);
    assert(job_for(jobs[k], at[k].0, at[k].1, user, servers, peers));
    assert(shareable(servers, with_secrets, registered, at[k]));
}

/// Every server and protocol that have a share link are planned for.
pub proof fn eligible_share_links_are_planned(
    jobs: Seq<LinkJob>,
    user: RenderUser,
    servers: Seq<ShareServer>,
    with_secrets: Seq<Seq<char>>,
    registered: Seq<Seq<char>>,
    peers: Seq<ServerPeers>,
    point: (int, int),
)
    requires
        jobs_at(
            jobs,
            share_points(servers, with_secrets, registered, servers.len() as int),
            user,
            servers,
            peers,
        ),
        shareable(servers, with_secrets, registered, point),
    ensures
        exists|k: int|
            0 <= k < jobs.len() && (#[trigger] jobs[k]).server == point.0 && jobs[k].protocol
                == point.1,
{
    lemma_share_points(servers, with_secrets, registered, servers.len() as int);
    let at = share_points(servers, with_secrets, registered, servers.len() as int);
    assert(at.contains(point));
    let k = at.index_of(point);
    assert(job_for(jobs[k], at[k].0, at[k].1, user, servers, peers));
}

/// Share links are planned server by server and, on each, protocol by
/// protocol, none twice.
pub proof fn share_links_are_planned_in_order(
    jobs: Seq<LinkJob>,
    user: RenderUser,
    servers: Seq<ShareServer>,
    with_secrets: Seq<Seq<char>>,
    registered: Seq<Seq<char>>,
    peers: Seq<ServerPeers>,
    j: int,
    k: int,
)
    requires
        jobs_at(
            jobs,
            share_points(servers, with_secrets, registered, servers.len() as int),
            user,
            servers,
            peers,
        ),
        0 <= j < k < jobs.len(),
    ensures
        point_before(
            (jobs[j].server as int, jobs[j].protocol as int),
            (jobs[k].server as int, jobs[k].protocol as int),
        ),
{
    lemma_share_points(servers, with_secrets, registered, servers.len() as int);
    let at = share_points(servers, with_secrets, registered, servers.len() as int);
    assert(job_for(jobs[j], at[j].0, at[j].1, user, servers, peers));
    assert(job_for(jobs[k], at[k].0, at[k].1, user, servers, peers));
    assert(point_before(at[j], at[k]));
}

} // verus!
