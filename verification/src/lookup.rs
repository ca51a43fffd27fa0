//! What to answer when a page cannot be made.
use crate::text::cat3;
use vstd::prelude::*;

verus! {

/// What looking up a server in the inventory gave.
pub enum ServerLookup {
    Found,
    /// There is no server with that id.
    Missing,
    /// The inventory could not be read.
    Failed,
}

/// How to answer a request for a page.
pub enum LookupReply {
    /// Go on and make the page.
    Proceed,
    /// No such page, with the explanation.
    NotFound(String),
    InternalError,
}

/// `r` answers a request for the page of the server called `id`: an unknown
/// id is named, and a failed lookup is no unknown server.
pub open spec fn lookup_reply(r: LookupReply, found: ServerLookup, id: Seq<char>) -> bool {
    match found {
        ServerLookup::Found => r is Proceed,
        ServerLookup::Missing => r matches LookupReply::NotFound(msg) && msg@ == "no such server '"@
            + id + "'"@,
        ServerLookup::Failed => r is InternalError,
    }
}

/// How to answer a request for the page of the server called `id`.
pub fn server_lookup(found: &ServerLookup, id: &str) -> (r: LookupReply)
    ensures
        lookup_reply(r, *found, id@),
{
    match found {
        ServerLookup::Found => LookupReply::Proceed,
        ServerLookup::Missing => LookupReply::NotFound(cat3("no such server '", id, "'")),
        ServerLookup::Failed => LookupReply::InternalError,
    }
}

/// How to answer a request for a page of the whole fleet: it fails exactly
/// where the servers could not be listed, and an empty fleet has its page.
pub fn fleet_lookup(listed: bool) -> (r: LookupReply)
    ensures
        r is InternalError <==> !listed,
        r is Proceed <==> listed,
{
    if listed {
        LookupReply::Proceed
    } else {
        LookupReply::InternalError
    }
}

} // verus!
