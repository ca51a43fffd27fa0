//! Laws of protocols and their delivery.
use crate::locale::Locale;
use crate::protocols::{
    Delivery, GridEntry, GridPlace, GridRow, HiddenFlag, OverrideOutcome, OverrideReply,
    ProtocolEntry, ProtocolHost, ProtocolRow, ProtocolState,
};
use vstd::prelude::*;

verus! {

/// Flag `e` is the first for the protocol.
pub open spec fn first_flag(flags: Seq<HiddenFlag>, id: Seq<char>, e: int) -> bool {
    &&& 0 <= e < flags.len()
    &&& flags[e].id@ == id
    &&& forall|j: int| 0 <= j < e ==> (#[trigger] flags[j]).id@ != id
}

/// A protocol is hidden exactly where the first flag for it says so.
pub proof fn first_flag_decides(flags: Seq<HiddenFlag>, id: Seq<char>)
    ensures
        crate::protocols::hidden_in(flags, id) <==> exists|e: int| #[trigger]
            first_flag(flags, id, e) && flags[e].hidden,
    decreases flags.len(),
{
    if flags.len() > 0 && flags[0].id@ != id {
        let rest = flags.skip(1);
        first_flag_decides(rest, id);
        if exists|e: int| #[trigger] first_flag(rest, id, e) && rest[e].hidden {
            let e = choose|e: int| #[trigger] first_flag(rest, id, e) && rest[e].hidden;
            assert forall|j: int| 0 <= j < e + 1 implies (#[trigger] flags[j]).id@ != id by {
                if j > 0 {
                    assert(rest[j - 1].id@ != id);
                }
            }
            assert(first_flag(flags, id, e + 1));
        }
        if exists|e: int| #[trigger] first_flag(flags, id, e) && flags[e].hidden {
            let e = choose|e: int| #[trigger] first_flag(flags, id, e) && flags[e].hidden;
            assert forall|j: int| 0 <= j < e - 1 implies (#[trigger] rest[j]).id@ != id by {
                assert(flags[j + 1].id@ != id);
            }
            assert(first_flag(rest, id, e - 1));
        }
    } else if flags.len() > 0 {
        assert(first_flag(flags, id, 0));
        assert forall|e: int| #[trigger] first_flag(flags, id, e) implies e == 0 by {
            if e > 0 {
                assert(flags[0].id@ != id);
            }
        }
    }
}

/// Some kernel of the server, at whatever position, runs the protocol.
pub open spec fn some_kernel_runs(host: ProtocolHost, id: Seq<char>) -> bool {
    exists|k: int, j: int|
        0 <= k < host.kernel_supports@.len() && 0 <= j < host.kernel_supports@[k]@.len()
            && #[trigger] host.kernel_supports@[k]@[j]@ == id
}

/// The server has the protocol enabled.
pub open spec fn enabled_on(host: ProtocolHost, id: Seq<char>) -> bool {
    exists|k: int| 0 <= k < host.enabled@.len() && (#[trigger] host.enabled@[k])@ == id
}

proof fn lemma_supported(host: ProtocolHost, id: Seq<char>)
    ensures
        crate::protocols::supported(host, id) <==> some_kernel_runs(host, id),
{
    if crate::protocols::supported(host, id) {
        let k = choose|k: int|
            0 <= k < host.kernel_supports@.len() && crate::text::texts(
                (#[trigger] host.kernel_supports@[k])@,
            ).contains(id);
        let t = crate::text::texts(host.kernel_supports@[k]@);
        let j = t.index_of(id);
        assert(host.kernel_supports@[k]@[j]@ == id);
    }
    if some_kernel_runs(host, id) {
        let (k, j) = choose|k: int, j: int|
            0 <= k < host.kernel_supports@.len() && 0 <= j < host.kernel_supports@[k]@.len()
                && #[trigger] host.kernel_supports@[k]@[j]@ == id;
        let t = crate::text::texts(host.kernel_supports@[k]@);
        assert(t[j] == id);
        assert(t.contains(id));
        assert(crate::text::texts((host.kernel_supports@[k])@).contains(id));
    }
}

/// What can be done with a protocol depends on three things: whether the server
/// has it enabled, whether one of its kernels runs it, and whether it is hidden.
pub proof fn state_by_enabled_supported_hidden(
    r: ProtocolRow,
    p: ProtocolEntry,
    host: ProtocolHost,
    lang: Locale,
)
    requires
        crate::protocols::protocol_row(r, p, host, lang),
    ensures
        ({
            let on = enabled_on(host, p.id@);
            let runs = some_kernel_runs(host, p.id@);
            let hidden = crate::protocols::hidden_in(host.hidden@, p.id@);
            &&& r.compatible <==> runs
            &&& r.unsupported is Some <==> !runs
            &&& r.state is On <==> on && runs && !hidden
            &&& r.state is Hidden <==> on && runs && hidden
            &&& r.state is Stray <==> on && !runs
            &&& r.state is Off <==> !on && runs
            &&& r.state is Incompatible <==> !on && !runs
            &&& r.state matches ProtocolState::Stray { disable, hidden: h } ==> h == hidden
        }),
{
    lemma_supported(host, p.id@);
    crate::laws::texts::holds_text(host.enabled@, p.id@);
}

/// The address of an action on one protocol of one server.
pub open spec fn action_url(host: ProtocolHost, p: ProtocolEntry, verb: Seq<char>) -> Seq<char> {
    "/admin/servers/"@ + host.path@ + "/protocols/"@ + p.path@ + verb
}

/// A protocol that is on can be turned off, one that is off turned on, a shown
/// one hidden and a hidden one shown: the forms of a row act on its own
/// protocol and server, and say what they do.
pub proof fn forms_do_what_the_state_lacks(
    r: ProtocolRow,
    p: ProtocolEntry,
    host: ProtocolHost,
    lang: Locale,
)
    requires
        crate::protocols::protocol_row(r, p, host, lang),
    ensures
        r.state matches ProtocolState::On { disable, hide } ==> disable.action@ == action_url(
            host,
            p,
            "/disable"@,
        ) && hide.action@ == action_url(host, p, "/hide"@) && disable.title@
            == crate::protocols::disable_title(p.id@, host.id@, lang) && hide.title@
            == crate::protocols::hide_title(p.id@, lang),
        r.state matches ProtocolState::Hidden { disable, unhide } ==> disable.action@ == action_url(
            host,
            p,
            "/disable"@,
        ) && unhide.action@ == action_url(host, p, "/unhide"@) && disable.title@
            == crate::protocols::disable_title(p.id@, host.id@, lang) && unhide.title@
            == crate::protocols::unhide_title(p.id@, lang),
        r.state matches ProtocolState::Stray { disable, hidden } ==> disable.action@ == action_url(
            host,
            p,
            "/disable"@,
        ),
        r.state matches ProtocolState::Off { enable } ==> enable.action@ == action_url(
            host,
            p,
            "/enable"@,
        ) && enable.title@ == crate::protocols::enable_title(p.id@, host.id@, lang),
{
}

/// What the forms of a row say names the protocol, and the server where it is
/// changed.
pub proof fn forms_name_what_they_change(p: Seq<char>, server: Seq<char>)
    ensures
        crate::protocols::disable_title(p, server, Locale::En) == "Remove "@ + p + " from "@ + server
            + ".enabled_protocols. Takes effect on next deploy."@,
        crate::protocols::enable_title(p, server, Locale::En) == "Add "@ + p + " to "@ + server
            + ".enabled_protocols. Takes effect on next deploy."@,
        crate::protocols::disable_title(p, server, Locale::Ru) == "Убрать "@ + p + " из "@ + server
            + ".enabled_protocols. Применится при следующем деплое."@,
        crate::protocols::enable_title(p, server, Locale::Ru) == "Добавить "@ + p + " в "@ + server
            + ".enabled_protocols. Применится при следующем деплое."@,
{
}

/// A protocol that no kernel runs names the only kernel, or all of them.
pub proof fn unsupported_names_the_kernels(
    r: ProtocolRow,
    p: ProtocolEntry,
    host: ProtocolHost,
    lang: Locale,
)
    requires
        crate::protocols::protocol_row(r, p, host, lang),
    ensures
        r.unsupported matches Some(t) ==> {
            &&& host.kernels@.len() == 1 && lang is En ==> t@ == "(not supported by "@ + (
            "kernel "@ + host.kernels@[0]@) + ")"@
            &&& host.kernels@.len() == 1 && lang is Ru ==> t@ == "(не поддерживается "@ + (
            "ядром "@ + host.kernels@[0]@) + ")"@
            &&& host.kernels@.len() != 1 && lang is En ==> t@ == "(not supported by "@ + (
            "any kernel on this server: "@ + crate::text::join_text(
                crate::text::texts(host.kernels@),
                ", "@,
            )) + ")"@
            &&& host.kernels@.len() != 1 && lang is Ru ==> t@ == "(не поддерживается "@ + (
            "ни одним ядром на этом сервере: "@ + crate::text::join_text(
                crate::text::texts(host.kernels@),
                ", "@,
            )) + ")"@
        },
        r.compatible && !p.weak ==> r.style@ == "flex: 1; color: "@ + "var(--ink)"@
            + "; font-size: "@ + "12px"@ + ";"@,
        r.compatible && p.weak ==> r.style@ == "flex: 1; color: "@ + "var(--ink)"@
            + "; font-size: "@ + "11px"@ + ";"@,
        !r.compatible && !p.weak ==> r.style@ == "flex: 1; color: "@ + "var(--mute)"@
            + "; font-size: "@ + "12px"@ + ";"@,
        !r.compatible && p.weak ==> r.style@ == "flex: 1; color: "@ + "var(--mute)"@
            + "; font-size: "@ + "11px"@ + ";"@,
{
}

/// The grid has one row per entry, by id; what a row offers follows from the two
/// flags of its entry: a block can be lifted wherever it is set, and set where
/// the protocol is delivered, each for just that user, server and protocol.
pub proof fn grid_follows_the_flags(
    rows: Seq<GridRow>,
    es: Seq<GridEntry>,
    place: GridPlace,
    lang: Locale,
    i: int,
    j: int,
    x: usize,
)
    requires
        crate::protocols::grid_rows(rows, es, place, lang),
        0 <= i < rows.len(),
    ensures
        rows.len() == es.len(),
        rows[i].at < es.len(),
        i < j < rows.len() ==> rows[i].at != rows[j].at && !crate::order::lex_lt(
            es[rows[j].at as int].id@,
            es[rows[i].at as int].id@,
        ),
        x < es.len() ==> exists|k: int| 0 <= k < rows.len() && (#[trigger] rows[k]).at == x,
        ({
            let e = es[rows[i].at as int];
            let url = "/admin/users/"@ + place.user_path@ + "/grants/"@ + place.server_path@
                + "/protocols/"@ + e.path@;
            &&& rows[i].delivery is HiddenAndBlocked <==> e.hidden && e.blocked
            &&& rows[i].delivery is Hidden <==> e.hidden && !e.blocked
            &&& rows[i].delivery is Blocked <==> !e.hidden && e.blocked
            &&& rows[i].delivery is Delivered <==> !e.hidden && !e.blocked
            &&& rows[i].delivery matches Delivery::HiddenAndBlocked { enable } ==> enable@ == url
                + "/enable"@
            &&& rows[i].delivery matches Delivery::Blocked { enable, title } ==> enable@ == url
                + "/enable"@ && (lang is En ==> title@ == "Deliver "@ + e.id@ + " to "@
                + place.user@ + " again on "@ + place.server@)
            &&& rows[i].delivery matches Delivery::Delivered { disable, title } ==> disable@ == url
                + "/disable"@ && (lang is En ==> title@ == "Stop delivering "@ + e.id@ + " to "@
                + place.user@ + " on "@ + place.server@
                + " (per-user override; other users keep getting it)"@)
            &&& e.weak ==> rows[i].style@ == "flex: 1; color: var(--ink); font-size: "@ + "10px"@
                + ";"@
            &&& !e.weak ==> rows[i].style@ == "flex: 1; color: var(--ink); font-size: "@ + "11px"@
                + ";"@
        }),
{
    let order = rows.map_values(|r: GridRow| r.at);
    assert(order[i] == rows[i].at);
    assert(crate::protocols::grid_row(rows[i], es, place, lang));
    if i < j < rows.len() {
        assert(order[j] == rows[j].at);
        let before = crate::protocols::entry_before(es);
        assert(crate::order::listed_before(before, order[i] as int, order[j] as int));
        let a = es[rows[i].at as int].id@;
        let b = es[rows[j].at as int].id@;
        if crate::order::lex_lt(a, b) {
            crate::order::lex_lt_asymmetric(a, b);
        }
    }
    if x < es.len() {
        assert(order.contains(x));
        let k = order.index_of(x);
        assert(rows[k].at == x);
    }
}

/// A stored block leads back to the access page of the user, a rejected one is
/// answered with the inventory's own words, and a failure as a failure.
pub proof fn every_outcome_has_its_answer(r: OverrideReply, o: OverrideOutcome, user: Seq<char>)
    requires
        crate::protocols::override_reply(r, o, user),
    ensures
        r is Redirect <==> o is Saved,
        r is BadRequest <==> o is Invalid,
        r is InternalError <==> o is Failed,
        r matches OverrideReply::Redirect(url) ==> url@ == "/admin/users/"@ + user
            + "/access#server-access"@,
        r matches OverrideReply::BadRequest(m) ==> (o matches OverrideOutcome::Invalid(msg) && m@
            == msg@),
{
}

/// What hiding and showing a protocol say names the protocol.
pub proof fn hiding_names_the_protocol(p: Seq<char>)
    ensures
        crate::protocols::hide_title(p, Locale::En) == "Stop emitting "@ + p
            + " in this server's subscription URLs WITHOUT removing the live inbound. Existing client URIs keep working until they re-pull."@,
        crate::protocols::unhide_title(p, Locale::En) == "Resume emitting "@ + p
            + " in this server's subscription URLs. Live sing-box inbound was never stopped; this just unmutes the render."@,
        crate::protocols::hide_title(p, Locale::Ru) == "Перестать отдавать "@ + p
            + " в URL подписок этого сервера БЕЗ удаления живого inbound. Закешированные клиентские URI продолжают работать до следующего pull."@,
        crate::protocols::unhide_title(p, Locale::Ru) == "Снова отдавать "@ + p
            + " в URL подписок этого сервера. Живой sing-box inbound никто не останавливал; это только снимает mute с рендера."@,
{
}

/// In Russian a row of the grid says the same as in English.
pub proof fn grid_in_russian(p: Seq<char>, user: Seq<char>, server: Seq<char>)
    ensures
        crate::protocols::unblock_title(p, user, server, Locale::Ru)
            == "Начать снова доставлять "@ + p + " пользователю "@ + user + " на "@ + server,
        crate::protocols::block_title(p, user, server, Locale::Ru) == "Перестать доставлять "@ + p
            + " пользователю "@ + user + " на "@ + server
            + " (per-user override; остальным продолжает идти)"@,
{
}

} // verus!
