//! Laws of share links.
use crate::share_links::{LinkJob, LinkKind, RenderUser, ServerPeers, ShareLink, ShareServer};
use vstd::prelude::*;

verus! {

/// Some string of the list reads `x`.
pub open spec fn lists(v: Seq<String>, x: Seq<char>) -> bool {
    exists|i: int| 0 <= i < v.len() && (#[trigger] v[i])@ == x
}

/// A server gives links where it has `wireguard` enabled at any position and,
/// for AmneziaWG links, runs the kernel `amneziawg` at any position.
pub open spec fn gives_links(s: ShareServer, kind: LinkKind) -> bool {
    &&& lists(s.enabled_protocols@, "wireguard"@)
    &&& kind == LinkKind::Awg ==> lists(s.kernels@, "amneziawg"@)
}

proof fn lemma_serves(s: ShareServer, kind: LinkKind)
    ensures
        crate::share_links::serves(s, kind) <==> gives_links(s, kind),
{
    crate::laws::texts::holds_text(s.enabled_protocols@, "wireguard"@);
    crate::laws::texts::holds_text(s.kernels@, "amneziawg"@);
}

proof fn lemma_link_servers(
    servers: Seq<ShareServer>,
    with_secrets: Seq<Seq<char>>,
    kind: LinkKind,
    n: int,
)
    requires
        0 <= n <= servers.len(),
    ensures
        forall|i: int|
            #![trigger servers[i]]
            #![trigger crate::share_links::link_servers(servers, with_secrets, kind, n).contains(i)]
            crate::share_links::link_servers(servers, with_secrets, kind, n).contains(i) <==> (0
                <= i < n && gives_links(servers[i], kind) && with_secrets.contains(
                servers[i].id@,
            )),
        forall|j: int, k: int|
            0 <= j < k < crate::share_links::link_servers(servers, with_secrets, kind, n).len()
                ==> #[trigger] crate::share_links::link_servers(servers, with_secrets, kind, n)[j]
                < #[trigger] crate::share_links::link_servers(servers, with_secrets, kind, n)[k],
    decreases n,
{
    let here = crate::share_links::link_servers(servers, with_secrets, kind, n);
    if n > 0 {
        let before = crate::share_links::link_servers(servers, with_secrets, kind, n - 1);
        lemma_link_servers(servers, with_secrets, kind, n - 1);
        lemma_serves(servers[n - 1], kind);
        assert forall|i: int|
            #![trigger servers[i]]
            #![trigger here.contains(i)]
            here.contains(i) <==> (0 <= i < n && gives_links(servers[i], kind)
                && with_secrets.contains(servers[i].id@)) by {
            if here.contains(i) {
                let k = here.index_of(i);
                if k < before.len() {
                    assert(before[k] == i);
                    assert(before.contains(i));
                }
            }
            if before.contains(i) {
                let k = before.index_of(i);
                assert(here[k] == i);
            }
            if i == n - 1 && here.len() > before.len() {
                assert(here[here.len() - 1] == i);
            }
        }
        assert forall|j: int, k: int| 0 <= j < k < here.len() implies #[trigger] here[j]
            < #[trigger] here[k] by {
            assert(before.contains(before[j]));
        }
    }
}

/// A link is planned for a server exactly where its secrets are at hand and it
/// gives links of the kind, wherever in its lists the protocol and the kernel
/// stand. The links follow the order of the servers, one for each.
pub proof fn links_for_every_server_that_gives_them(
    jobs: Seq<LinkJob>,
    user: RenderUser,
    servers: Seq<ShareServer>,
    with_secrets: Seq<Seq<char>>,
    peers: Seq<ServerPeers>,
    kind: LinkKind,
    i: int,
)
    requires
        crate::share_links::link_jobs(jobs, user, servers, with_secrets, peers, kind),
        0 <= i < servers.len(),
    ensures
        (exists|k: int| 0 <= k < jobs.len() && (#[trigger] jobs[k]).server == i) <==> gives_links(
            servers[i],
            kind,
        ) && with_secrets.contains(servers[i].id@),
        forall|j: int, k: int|
            0 <= j < k < jobs.len() ==> (#[trigger] jobs[j]).server < (#[trigger] jobs[k]).server,
        forall|k: int|
            0 <= k < jobs.len() ==> (#[trigger] jobs[k]).server < servers.len() && jobs[k].protocol
                == 0,
{
    let at = crate::share_links::link_servers(servers, with_secrets, kind, servers.len() as int);
    lemma_link_servers(servers, with_secrets, kind, servers.len() as int);
    assert forall|k: int| 0 <= k < jobs.len() implies (#[trigger] jobs[k]).server == at[k]
        && jobs[k].server < servers.len() && jobs[k].protocol == 0 by {
        assert(at.contains(at[k]));
        assert(servers[at[k]] == servers[at[k]]);
        assert(crate::share_links::job_for(jobs[k], at[k], 0, user, servers, peers));
    }
    if exists|k: int| 0 <= k < jobs.len() && (#[trigger] jobs[k]).server == i {
        let k = choose|k: int| 0 <= k < jobs.len() && (#[trigger] jobs[k]).server == i;
        assert(at.contains(at[k]));
    }
    if gives_links(servers[i], kind) && with_secrets.contains(servers[i].id@) {
        assert(at.contains(i));
        let k = at.index_of(i);
        assert(jobs[k].server == i);
    }
}

/// What a server gives does not depend on where its kernels and protocols
/// stand, and more of them never take a link away.
pub proof fn more_kernels_and_protocols_keep_links(s: ShareServer, t: ShareServer, kind: LinkKind)
    requires
        forall|x: Seq<char>| #[trigger] lists(s.kernels@, x) ==> lists(t.kernels@, x),
        forall|x: Seq<char>| #[trigger]
            lists(s.enabled_protocols@, x) ==> lists(t.enabled_protocols@, x),
        crate::share_links::serves(s, kind),
    ensures
        crate::share_links::serves(t, kind),
{
    lemma_serves(s, kind);
    lemma_serves(t, kind);
}

/// Entry `e` is the first of this id.
pub open spec fn first_peer(peers: Seq<RenderUser>, id: Seq<char>, e: int) -> bool {
    &&& 0 <= e < peers.len()
    &&& peers[e].id@ == id
    &&& forall|j: int| 0 <= j < e ==> (#[trigger] peers[j]).id@ != id
}

/// Entry `e` is the first for this server.
pub open spec fn first_of_server(peers: Seq<ServerPeers>, id: Seq<char>, e: int) -> bool {
    &&& 0 <= e < peers.len()
    &&& peers[e].server_id@ == id
    &&& forall|j: int| 0 <= j < e ==> (#[trigger] peers[j]).server_id@ != id
}

proof fn lemma_peer(peers: Seq<RenderUser>, id: Seq<char>)
    ensures
        forall|e: int| #[trigger]
            first_peer(peers, id, e) ==> crate::share_links::peer_uuid(peers, id) == Some(
                peers[e].uuid@,
            ),
        crate::share_links::peer_uuid(peers, id) is None <==> forall|j: int|
            0 <= j < peers.len() ==> (#[trigger] peers[j]).id@ != id,
    decreases peers.len(),
{
    if peers.len() > 0 && peers[0].id@ != id {
        let rest = peers.skip(1);
        lemma_peer(rest, id);
        assert forall|e: int| #[trigger] first_peer(peers, id, e) implies first_peer(
            rest,
            id,
            e - 1,
        ) by {
            assert forall|j: int| 0 <= j < e - 1 implies (#[trigger] rest[j]).id@ != id by {
                assert(peers[j + 1].id@ != id);
            }
        }
        if forall|j: int| 0 <= j < rest.len() ==> (#[trigger] rest[j]).id@ != id {
            assert forall|j: int| 0 <= j < peers.len() implies (#[trigger] peers[j]).id@ != id by {
                if j > 0 {
                    assert(rest[j - 1].id@ != id);
                }
            }
        }
        if forall|j: int| 0 <= j < peers.len() ==> (#[trigger] peers[j]).id@ != id {
            assert forall|j: int| 0 <= j < rest.len() implies (#[trigger] rest[j]).id@ != id by {
                assert(peers[j + 1].id@ != id);
            }
        }
    } else if peers.len() > 0 {
        assert forall|e: int| #[trigger] first_peer(peers, id, e) implies e == 0 by {
            if e > 0 {
                assert(peers[0].id@ != id);
            }
        }
    }
}

proof fn lemma_peers(peers: Seq<ServerPeers>, id: Seq<char>)
    ensures
        forall|e: int| #[trigger]
            first_of_server(peers, id, e) ==> crate::share_links::peers_of(peers, id)
                == peers[e].users@,
        (forall|j: int| 0 <= j < peers.len() ==> (#[trigger] peers[j]).server_id@ != id)
            ==> crate::share_links::peers_of(peers, id).len() == 0,
    decreases peers.len(),
{
    if peers.len() > 0 && peers[0].server_id@ != id {
        let rest = peers.skip(1);
        lemma_peers(rest, id);
        assert forall|e: int| #[trigger] first_of_server(peers, id, e) implies first_of_server(
            rest,
            id,
            e - 1,
        ) by {
            assert forall|j: int| 0 <= j < e - 1 implies (#[trigger] rest[j]).server_id@ != id by {
                assert(peers[j + 1].server_id@ != id);
            }
        }
        if forall|j: int| 0 <= j < peers.len() ==> (#[trigger] peers[j]).server_id@ != id {
            assert forall|j: int| 0 <= j < rest.len() implies (#[trigger] rest[j]).server_id@ != id by {
                assert(peers[j + 1].server_id@ != id);
            }
        }
    } else if peers.len() > 0 {
        assert forall|e: int| #[trigger] first_of_server(peers, id, e) implies e == 0 by {
            if e > 0 {
                assert(peers[0].server_id@ != id);
            }
        }
    }
}

/// A link carries the uuid that the user has on the server: that of their first
/// entry among the peers of the server, which are those of the first entry for
/// the server. Without an entry it carries the user's own uuid, and is flagged
/// exactly where the server has peers and the user is none of them.
pub proof fn links_carry_the_uuid_of_the_server(
    j: LinkJob,
    at: int,
    protocol: int,
    user: RenderUser,
    servers: Seq<ShareServer>,
    peers: Seq<ServerPeers>,
    e: int,
    p: int,
)
    requires
        crate::share_links::job_for(j, at, protocol, user, servers, peers),
    ensures
        j.server == at,
        j.protocol == protocol,
        j.user.id@ == user.id@,
        first_of_server(peers, servers[at].id@, e) && first_peer(peers[e].users@, user.id@, p)
            ==> j.user.uuid@ == peers[e].users@[p].uuid@ && !j.missing,
        first_of_server(peers, servers[at].id@, e) && (forall|k: int|
            0 <= k < peers[e].users@.len() ==> (#[trigger] peers[e].users@[k]).id@ != user.id@)
            ==> j.user.uuid@ == user.uuid@ && (j.missing <==> peers[e].users@.len() > 0),
        (forall|k: int|
            0 <= k < peers.len() ==> (#[trigger] peers[k]).server_id@ != servers[at].id@)
            ==> j.user.uuid@ == user.uuid@ && !j.missing,
{
    lemma_peers(peers, servers[at].id@);
    lemma_peer(crate::share_links::peers_of(peers, servers[at].id@), user.id@);
}

/// The same for one server and its peers alone.
pub proof fn uuid_among_peers(user: RenderUser, peers: Seq<RenderUser>, p: int)
    ensures
        first_peer(peers, user.id@, p) ==> crate::share_links::server_uuid(user, peers)
            == peers[p].uuid@,
        (forall|k: int| 0 <= k < peers.len() ==> (#[trigger] peers[k]).id@ != user.id@)
            ==> crate::share_links::server_uuid(user, peers) == user.uuid@,
        crate::share_links::peer_uuid(peers, user.id@) is None <==> forall|k: int|
            0 <= k < peers.len() ==> (#[trigger] peers[k]).id@ != user.id@,
{
    lemma_peer(peers, user.id@);
}

/// One link is kept per job that could be rendered, in the order of the jobs;
/// `links` holds what rendering gave.
pub proof fn rendered_links_are_kept(links: Seq<Option<String>>, n: int)
    requires
        0 <= n <= links.len(),
    ensures
        forall|i: int|
            #![trigger links[i]]
            #![trigger crate::share_links::rendered(links, n).contains(i)]
            crate::share_links::rendered(links, n).contains(i) <==> (0 <= i < n && links[i] is Some),
        forall|j: int, k: int|
            0 <= j < k < crate::share_links::rendered(links, n).len()
                ==> #[trigger] crate::share_links::rendered(links, n)[j]
                < #[trigger] crate::share_links::rendered(links, n)[k],
    decreases n,
{
    let here = crate::share_links::rendered(links, n);
    if n > 0 {
        let before = crate::share_links::rendered(links, n - 1);
        rendered_links_are_kept(links, n - 1);
        assert forall|i: int|
            #![trigger links[i]]
            #![trigger here.contains(i)]
            here.contains(i) <==> (0 <= i < n && links[i] is Some) by {
            if here.contains(i) {
                let k = here.index_of(i);
                if k < before.len() {
                    assert(before[k] == i);
                    assert(before.contains(i));
                }
            }
            if before.contains(i) {
                let k = before.index_of(i);
                assert(here[k] == i);
            }
            if i == n - 1 && links[i] is Some {
                assert(here[here.len() - 1] == i);
            }
        }
        assert forall|j: int, k: int| 0 <= j < k < here.len() implies #[trigger] here[j]
            < #[trigger] here[k] by {
            assert(before.contains(before[j]));
        }
    }
}

/// A kept link is the text its job gave, under the id of the server of the job.
pub proof fn kept_link_belongs_to_its_job(
    l: ShareLink,
    at: int,
    jobs: Seq<LinkJob>,
    links: Seq<Option<String>>,
    servers: Seq<ShareServer>,
)
    requires
        crate::share_links::link_of(l, at, jobs, links, servers),
    ensures
        l.job == at,
        links[at] is Some,
        l.link@ == links[at]->0@,
        l.server_id@ == servers[jobs[at].server as int].id@,
{
}

} // verus!
