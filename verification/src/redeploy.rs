//! Redeploys that follow a change of grants.
use crate::text::starts_with;
use vstd::prelude::*;

verus! {

/// The action that is recorded for a trigger: a server's own triggers stay
/// out of the users' records.
pub open spec fn autodeploy_action(trigger: Seq<char>) -> &'static str {
    if "server."@.is_prefix_of(trigger) {
        "server.autodeploy"
    } else {
        "user.autodeploy"
    }
}

/// The action to record for the redeploy of `servers` servers; none where
/// there is nothing to redeploy.
pub fn spawn_user_servers_redeploy(servers: usize, trigger: &str) -> (r: Option<&'static str>)
    ensures
        r == (if servers == 0 {
            None
        } else {
            Some(autodeploy_action(trigger@))
        }),
{
    if servers == 0 {
        None
    } else if starts_with(trigger, "server.") {
        Some("server.autodeploy")
    } else {
        Some("user.autodeploy")
    }
}

/// Whether a redeploy is recorded as successful: only without any error.
pub fn redeploy_ok(errors: &Vec<String>) -> (r: bool)
    ensures
        r == (errors@.len() == 0),
{
    errors.len() == 0
}

} // verus!
