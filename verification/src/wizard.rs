//! The wizard that adds a server.
use crate::text::{cat2, cat4, cat5, dec, is_empty, trim};
use vstd::prelude::*;

verus! {

/// Where the wizard goes on after its first step.
pub const STEP_TWO: &'static str = "/admin/servers/new/step-2";

/// Why the second step cannot be shown.
pub const NO_SESSION: &'static str =
    "wizard session expired or missing — start over from /admin/servers/new";

/// The user that a submitted one stands for: `root` for a blank one.
pub open spec fn ssh_user_text(raw: Seq<char>) -> Seq<char> {
    if crate::text::trimmed(raw).len() == 0 {
        "root"@
    } else {
        crate::text::trimmed(raw)
    }
}

/// The user to connect as, before its shape is checked.
pub fn ssh_user_candidate(raw: &str) -> (r: String)
    ensures
        r@ == ssh_user_text(raw@),
{
    let t = trim(raw);
    if is_empty(t.as_str()) {
        "root".to_owned()
    } else {
        t
    }
}

/// The verdicts on the submitted fields: the accepted value or what is wrong.
pub struct FieldChecks {
    pub address: Result<String, String>,
    pub ssh_user: Result<String, String>,
    /// What is wrong with the password.
    pub password: Option<String>,
    pub ssh_port: Result<u16, String>,
}

/// A server to add.
pub struct NewServer {
    pub address: String,
    pub ssh_user: String,
    pub ssh_port: u16,
}

/// `r` is the server of a form, or the message on the first field that is
/// wrong: address, user, password, port.
pub open spec fn checked(r: Result<NewServer, String>, c: FieldChecks) -> bool {
    match (c.address, c.ssh_user, c.password, c.ssh_port) {
        (Err(why), _, _, _) => r matches Err(m) && m@ == "invalid address — "@ + why@,
        (Ok(_), Err(why), _, _) => r matches Err(m) && m@ == "invalid ssh_user — "@ + why@,
        (Ok(_), Ok(_), Some(why), _) => r matches Err(m) && m@ == "invalid root password — "@
            + why@,
        (Ok(_), Ok(_), None, Err(why)) => r matches Err(m) && m@ == "invalid ssh_port — "@ + why@,
        (Ok(a), Ok(u), None, Ok(p)) => r matches Ok(s) && s.address@ == a@ && s.ssh_user@ == u@
            && s.ssh_port == p,
    }
}

/// The server of a submitted form, or the message on the first field that is
/// wrong.
pub fn wizard_new_submit(c: &FieldChecks) -> (r: Result<NewServer, String>)
    ensures
        checked(r, *c),
{
    let address = match &c.address {
        Ok(a) => a.clone(),
        Err(why) => {
            return Err(cat2("invalid address — ", why.as_str()));
        },
    };
    let ssh_user = match &c.ssh_user {
        Ok(u) => u.clone(),
        Err(why) => {
            return Err(cat2("invalid ssh_user — ", why.as_str()));
        },
    };
    match &c.password {
        Some(why) => {
            return Err(cat2("invalid root password — ", why.as_str()));
        },
        None => {},
    }
    match &c.ssh_port {
        Ok(p) => Ok(NewServer { address, ssh_user, ssh_port: *p }),
        Err(why) => Err(cat2("invalid ssh_port — ", why.as_str())),
    }
}

/// What looking up the address gave.
pub enum AddressLookup {
    /// A server has it already.
    Taken(String),
    Free,
    Failed,
}

/// How the first step ends.
pub enum StepOne {
    /// The address is taken.
    Duplicate(String),
    /// Start a session and go on.
    Proceed,
    Failed,
}

/// Why an address that is taken is refused.
pub open spec fn duplicate_text(address: Seq<char>, existing: Seq<char>) -> Seq<char> {
    "address '"@ + address + "' is already registered to server '"@ + existing
        + "' — one node = one server record; edit '"@ + existing
        + "' instead of bootstrapping a duplicate"@
}

/// How the first step ends for an accepted address: one node has one server.
pub fn step_one(address: &str, found: &AddressLookup) -> (r: StepOne)
    ensures
        match *found {
            AddressLookup::Taken(existing) => r matches StepOne::Duplicate(m) && m@
                == duplicate_text(address@, existing@),
            AddressLookup::Free => r is Proceed,
            AddressLookup::Failed => r is Failed,
        },
{
    match found {
        AddressLookup::Taken(existing) => {
            let e = existing.as_str();
            let head = cat5(
                "address '",
                address,
                "' is already registered to server '",
                e,
                "' — one node = one server record; edit '",
            );
            let r = cat4(head.as_str(), e, "' instead of bootstrapping a duplicate", "");
            proof {
                reveal_strlit("");
                assert(r@ =~= duplicate_text(address@, existing@));
            }
            StepOne::Duplicate(r)
        },
        AddressLookup::Free => StepOne::Proceed,
        AddressLookup::Failed => StepOne::Failed,
    }
}

/// The cookie that carries the session: sent to the wizard's own pages only,
/// for ten minutes.
pub fn session_cookie(name: &str, id: &str) -> (r: String)
    ensures
        r@ == name@ + "="@ + id@
            + "; HttpOnly; SameSite=Strict; Path=/admin/servers/new; Max-Age=600"@,
{
    cat4(
        name,
        "=",
        id,
        "; HttpOnly; SameSite=Strict; Path=/admin/servers/new; Max-Age=600",
    )
}

/// Host and port of a server.
pub open spec fn target_text(s: NewServer) -> Seq<char> {
    s.address@ + ":"@ + crate::text::dec_text(s.ssh_port as nat)
}

/// The second step: host and port that are set up, or why it cannot be shown.
pub fn wizard_step2_stub(session: &Option<NewServer>) -> (r: Result<String, &'static str>)
    ensures
        match *session {
            Some(s) => r matches Ok(t) && t@ == target_text(s),
            None => r matches Err(m) && m == NO_SESSION,
        },
{
    match session {
        Some(s) => {
            let port = dec(s.ssh_port as u64);
            Ok(crate::text::cat3(s.address.as_str(), ":", port.as_str()))
        },
        None => Err(NO_SESSION),
    }
}

} // verus!
