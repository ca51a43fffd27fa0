//! Laws of the frame, the wizard and the answers to requests.
use crate::lookup::{LookupReply, ServerLookup};
use crate::shell::{NavLink, TweakButton};
use crate::wizard::{FieldChecks, NewServer};
use vstd::prelude::*;

verus! {

/// Every section but the dashboard lies below the home page under its own name.
/// A number stands only beside the alerts, and only where some wait.
pub proof fn sections_of_the_menu(
    l: NavLink,
    key: &'static str,
    active: Seq<char>,
    alerts_unacked: u64,
)
    requires
        crate::shell::nav_link(l, key, active, alerts_unacked),
    ensures
        l.key == key,
        key@ == "dashboard"@ ==> l.href@ == "/admin/"@,
        key@ != "dashboard"@ ==> l.href@ == "/admin/"@ + key@,
        l.active <==> key@ == active,
        l.count is Some <==> key@ == "alerts"@ && alerts_unacked > 0,
        l.count matches Some(n) ==> n == alerts_unacked,
{
}

/// The sections in menu order.
pub proof fn menu_order()
    ensures
        crate::shell::nav_keys().len() == 8,
        crate::shell::nav_keys()[0]@ == "dashboard"@,
        crate::shell::nav_keys()[1]@ == "monitoring"@,
        crate::shell::nav_keys()[2]@ == "servers"@,
        crate::shell::nav_keys()[3]@ == "users"@,
        crate::shell::nav_keys()[4]@ == "audit"@,
        crate::shell::nav_keys()[5]@ == "alerts"@,
        crate::shell::nav_keys()[6]@ == "settings"@,
        crate::shell::nav_keys()[7]@ == "boosty"@,
{
}

/// A button says what it changes to, and is filled exactly where its name is
/// the chosen one.
pub proof fn chosen_button_is_filled(
    bs: Seq<TweakButton>,
    names: Seq<&'static str>,
    chosen: Seq<char>,
    prompt: Seq<char>,
    fill: Seq<char>,
    i: int,
)
    requires
        crate::shell::tweak_buttons(bs, names, chosen, prompt, fill),
        0 <= i < names.len(),
    ensures
        bs.len() == names.len(),
        bs[i].value == names[i],
        bs[i].title@ == prompt + " "@ + names[i]@,
        names[i]@ == chosen ==> bs[i].style@
            == "padding: 3px 9px; border: 1px solid var(--rule-s); background: "@ + fill
            + "; color: "@ + "var(--paper)"@
            + "; font-family: var(--mono); font-size: 11px; cursor: pointer;"@,
        names[i]@ != chosen ==> bs[i].style@
            == "padding: 3px 9px; border: 1px solid var(--rule-s); background: "@ + "transparent"@
            + "; color: "@ + "var(--ink)"@
            + "; font-family: var(--mono); font-size: 11px; cursor: pointer;"@,
{
    assert(crate::shell::tweak_button(bs[i], names[i], chosen, prompt, fill));
}

/// Every theme and every accent but the default has a class of its own.
pub proof fn looks_have_their_classes()
    ensures
        crate::shell::themes().len() == 4,
        crate::shell::accents().len() == 4,
        forall|i: int|
            1 <= i < 4 ==> crate::shell::theme_class(#[trigger] crate::shell::themes()[i]@) == " ed-"@
                + crate::shell::themes()[i]@,
        forall|i: int|
            1 <= i < 4 ==> crate::shell::accent_class(#[trigger] crate::shell::accents()[i]@)
                == " ed-acc-"@ + crate::shell::accents()[i]@,
        crate::shell::theme_class(crate::shell::themes()[0]@).len() == 0,
        crate::shell::accent_class(crate::shell::accents()[0]@).len() == 0,
{
    reveal_strlit("default");
    reveal_strlit("newsprint");
    reveal_strlit("foxed");
    reveal_strlit("ink");
    reveal_strlit("rust");
    reveal_strlit("forest");
    reveal_strlit("plum");
    reveal_strlit(" ed-");
    reveal_strlit(" ed-acc-");
    reveal_strlit(" ed-newsprint");
    reveal_strlit(" ed-foxed");
    reveal_strlit(" ed-ink");
    reveal_strlit(" ed-acc-rust");
    reveal_strlit(" ed-acc-forest");
    reveal_strlit(" ed-acc-plum");
    assert("default"@.len() == 7 && "newsprint"@.len() == 9 && "foxed"@.len() == 5 && "ink"@.len()
        == 3 && "rust"@.len() == 4 && "forest"@.len() == 6 && "plum"@.len() == 4);
    assert("rust"@[0] == 'r' && "plum"@[0] == 'p');
    assert(" ed-newsprint"@ =~= " ed-"@ + "newsprint"@);
    assert(" ed-foxed"@ =~= " ed-"@ + "foxed"@);
    assert(" ed-ink"@ =~= " ed-"@ + "ink"@);
    assert(" ed-acc-rust"@ =~= " ed-acc-"@ + "rust"@);
    assert(" ed-acc-forest"@ =~= " ed-acc-"@ + "forest"@);
    assert(" ed-acc-plum"@ =~= " ed-acc-"@ + "plum"@);
    let t = crate::shell::themes();
    let a = crate::shell::accents();
    assert(t[0]@ == "default"@ && t[1]@ == "newsprint"@ && t[2]@ == "foxed"@ && t[3]@ == "ink"@);
    assert(a[0]@ == "default"@ && a[1]@ == "rust"@ && a[2]@ == "forest"@ && a[3]@ == "plum"@);
}

/// A form is accepted exactly where all four fields are. Otherwise the message
/// is on the first that is not, in the order address, user, password, port.
pub proof fn first_wrong_field_is_named(r: Result<NewServer, String>, c: FieldChecks)
    requires
        crate::wizard::checked(r, c),
    ensures
        r is Ok <==> c.address is Ok && c.ssh_user is Ok && c.password is None && c.ssh_port is Ok,
        r matches Ok(s) ==> s.address@ == c.address->Ok_0@ && s.ssh_user@ == c.ssh_user->Ok_0@
            && s.ssh_port == c.ssh_port->Ok_0,
        c.address is Err ==> r is Err && r->Err_0@ == "invalid address — "@ + c.address->Err_0@,
        c.address is Ok && c.ssh_user is Err ==> r is Err && r->Err_0@ == "invalid ssh_user — "@
            + c.ssh_user->Err_0@,
        c.address is Ok && c.ssh_user is Ok && c.password is Some ==> r is Err && r->Err_0@
            == "invalid root password — "@ + c.password->0@,
        c.address is Ok && c.ssh_user is Ok && c.password is None && c.ssh_port is Err ==> r is Err
            && r->Err_0@ == "invalid ssh_port — "@ + c.ssh_port->Err_0@,
{
}

/// A blank user stands for root; any other for itself, white space around it
/// aside.
pub proof fn blank_user_is_root(raw: Seq<char>)
    ensures
        crate::laws::texts::blank(raw) ==> crate::wizard::ssh_user_text(raw) == "root"@,
        !crate::laws::texts::blank(raw) ==> crate::wizard::ssh_user_text(raw)
            == crate::text::trimmed(raw),
{
    crate::laws::texts::trimming_takes_the_blank_ends(raw);
}

/// Where a node is set up: its address and port. A taken address is refused
/// with both names.
pub proof fn targets_and_duplicates(s: NewServer, address: Seq<char>, existing: Seq<char>)
    ensures
        crate::wizard::target_text(s) == s.address@ + ":"@ + crate::text::dec_text(
            s.ssh_port as nat,
        ),
        crate::wizard::duplicate_text(address, existing) == "address '"@ + address
            + "' is already registered to server '"@ + existing
            + "' — one node = one server record; edit '"@ + existing
            + "' instead of bootstrapping a duplicate"@,
{
}

/// A redeploy is recorded under the servers exactly where its trigger begins
/// with `server.`, and under the users otherwise.
pub proof fn server_triggers_stay_with_servers(rest: Seq<char>, trigger: Seq<char>)
    ensures
        crate::redeploy::autodeploy_action("server."@ + rest)@ == "server.autodeploy"@,
        crate::redeploy::autodeploy_action(trigger)@ == "user.autodeploy"@ || exists|r: Seq<char>|
            trigger == #[trigger] ("server."@ + r),
        !(exists|r: Seq<char>| trigger == #[trigger] ("server."@ + r))
            ==> crate::redeploy::autodeploy_action(trigger)@ == "user.autodeploy"@,
{
    let p = "server."@;
    assert((p + rest).take(p.len() as int) =~= p);
    assert(p.is_prefix_of(p + rest));
    if p.is_prefix_of(trigger) {
        assert(trigger =~= p + trigger.skip(p.len() as int));
    }
}

/// A page is made exactly for a server that was found; an unknown one is named,
/// and a lookup that failed is no unknown server.
pub proof fn unknown_servers_are_named(r: LookupReply, found: ServerLookup, id: Seq<char>)
    requires
        crate::lookup::lookup_reply(r, found, id),
    ensures
        r is Proceed <==> found is Found,
        r is NotFound <==> found is Missing,
        r is InternalError <==> found is Failed,
        r matches LookupReply::NotFound(m) ==> m@ == "no such server '"@ + id + "'"@,
{
}

/// A member is found by its name: the first of that name counts.
pub proof fn first_member_counts(
    ms: Seq<(Seq<char>, Option<Seq<char>>, Option<int>)>,
    name: Seq<char>,
    e: int,
)
    ensures
        0 <= e < ms.len() && ms[e].0 == name && (forall|j: int|
            0 <= j < e ==> (#[trigger] ms[j]).0 != name) ==> crate::json::member_text(ms, name)
            == ms[e].1 && crate::json::member_int(ms, name) == ms[e].2,
        (forall|j: int| 0 <= j < ms.len() ==> (#[trigger] ms[j]).0 != name)
            ==> crate::json::member_text(ms, name) is None && crate::json::member_int(ms, name)
            is None,
{
    if 0 <= e < ms.len() && ms[e].0 == name && (forall|j: int|
        0 <= j < e ==> (#[trigger] ms[j]).0 != name) {
        lemma_named(ms, name, 0, e);
    }
    if forall|j: int| 0 <= j < ms.len() ==> (#[trigger] ms[j]).0 != name {
        lemma_not_named(ms, name, 0);
    }
}

proof fn lemma_named(
    ms: Seq<(Seq<char>, Option<Seq<char>>, Option<int>)>,
    name: Seq<char>,
    from: int,
    e: int,
)
    requires
        0 <= from <= e < ms.len(),
        ms[e].0 == name,
        forall|j: int| 0 <= j < e ==> (#[trigger] ms[j]).0 != name,
    ensures
        crate::json::named_from(ms, name, from) == Some(e),
    decreases e - from,
{
    if from < e {
        lemma_named(ms, name, from + 1, e);
    }
}

proof fn lemma_not_named(
    ms: Seq<(Seq<char>, Option<Seq<char>>, Option<int>)>,
    name: Seq<char>,
    from: int,
)
    requires
        0 <= from <= ms.len(),
        forall|j: int| 0 <= j < ms.len() ==> (#[trigger] ms[j]).0 != name,
    ensures
        crate::json::named_from(ms, name, from) is None,
    decreases ms.len() - from,
{
    if from < ms.len() {
        lemma_not_named(ms, name, from + 1);
    }
}

} // verus!
