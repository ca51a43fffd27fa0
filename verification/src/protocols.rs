//! Protocols of a server and their delivery to users.
use crate::lists::has_text;
use crate::locale::{tr, Locale};
use crate::order::{stable_order, text_before};
use crate::text::{cat2, cat3, cat4, cat5, join, same};
use vstd::prelude::*;

verus! {

/// A protocol that the registry knows.
pub struct ProtocolEntry {
    pub id: String,
    /// The id, path-encoded.
    pub path: String,
    /// The registry rates it as easy to detect.
    pub weak: bool,
}

/// Whether a protocol is hidden from subscriptions of a server.
pub struct HiddenFlag {
    pub id: String,
    pub hidden: bool,
}

/// Whether the first entry for `id` says hidden; not without an entry.
pub open spec fn hidden_in(flags: Seq<HiddenFlag>, id: Seq<char>) -> bool
    decreases flags.len(),
{
    if flags.len() == 0 {
        false
    } else if flags[0].id@ == id {
        flags[0].hidden
    } else {
        hidden_in(flags.skip(1), id)
    }
}

fn is_hidden(flags: &Vec<HiddenFlag>, id: &str) -> (r: bool)
    ensures
        r == hidden_in(flags@, id@),
{
    let mut i: usize = 0;
    assert(flags@.skip(0) =~= flags@);
    while i < flags.len()
        invariant
            i <= flags.len(),
            hidden_in(flags@, id@) == hidden_in(flags@.skip(i as int), id@),
        decreases flags.len() - i,
    {
        assert(flags@.skip(i as int).skip(1) =~= flags@.skip(i + 1));
        if same(flags[i].id.as_str(), id) {
            return flags[i].hidden;
        }
        i = i + 1;
    }
    false
}

/// A server as far as its protocols are concerned.
pub struct ProtocolHost {
    pub id: String,
    /// The id, path-encoded.
    pub path: String,
    pub enabled: Vec<String>,
    /// Ids of its kernels, in listing order.
    pub kernels: Vec<String>,
    /// Protocols of each of its kernels that the registry knows.
    pub kernel_supports: Vec<Vec<String>>,
    pub hidden: Vec<HiddenFlag>,
}

/// Whether any kernel of the server runs the protocol.
pub open spec fn supported(host: ProtocolHost, id: Seq<char>) -> bool {
    exists|k: int|
        0 <= k < host.kernel_supports@.len() && crate::text::texts(
            (#[trigger] host.kernel_supports@[k])@,
        ).contains(id)
}

/// A form of a protocol row.
pub struct ProtocolForm {
    pub action: String,
    pub title: String,
}

/// What can be done with a protocol on a server.
pub enum ProtocolState {
    /// On and delivered.
    On { disable: ProtocolForm, hide: ProtocolForm },
    /// On but left out of subscriptions.
    Hidden { disable: ProtocolForm, unhide: ProtocolForm },
    /// On although no kernel runs it; it can only be turned off.
    Stray { disable: ProtocolForm, hidden: bool },
    Off { enable: ProtocolForm },
    /// Off, and no kernel runs it.
    Incompatible,
}

/// Row of a protocol.
pub struct ProtocolRow {
    pub compatible: bool,
    pub style: String,
    /// Why it cannot run, where no kernel supports it.
    pub unsupported: Option<String>,
    pub state: ProtocolState,
}

/// `f` is the form of `verb` with the given title.
pub open spec fn form_of(
    f: ProtocolForm,
    host: ProtocolHost,
    p: ProtocolEntry,
    verb: Seq<char>,
    title: Seq<char>,
) -> bool {
    &&& f.action@ == "/admin/servers/"@ + host.path@ + "/protocols/"@ + p.path@ + verb
    &&& f.title@ == title
}

/// What turning a protocol off does.
pub open spec fn disable_title(p: Seq<char>, server: Seq<char>, lang: Locale) -> Seq<char> {
    match lang {
        Locale::En => "Remove "@ + p + " from "@ + server
            + ".enabled_protocols. Takes effect on next deploy."@,
        Locale::Ru => "Убрать "@ + p + " из "@ + server
            + ".enabled_protocols. Применится при следующем деплое."@,
    }
}

/// What turning a protocol on does.
pub open spec fn enable_title(p: Seq<char>, server: Seq<char>, lang: Locale) -> Seq<char> {
    match lang {
        Locale::En => "Add "@ + p + " to "@ + server
            + ".enabled_protocols. Takes effect on next deploy."@,
        Locale::Ru => "Добавить "@ + p + " в "@ + server
            + ".enabled_protocols. Применится при следующем деплое."@,
    }
}

/// What hiding a protocol does.
pub open spec fn hide_title(p: Seq<char>, lang: Locale) -> Seq<char> {
    crate::locale::in_language(lang, "Stop emitting ", "Перестать отдавать ")@ + p
        + crate::locale::in_language(
        lang,
        " in this server's subscription URLs WITHOUT removing the live inbound. Existing client URIs keep working until they re-pull.",
        " в URL подписок этого сервера БЕЗ удаления живого inbound. Закешированные клиентские URI продолжают работать до следующего pull.",
    )@
}

/// What showing a hidden protocol does.
pub open spec fn unhide_title(p: Seq<char>, lang: Locale) -> Seq<char> {
    crate::locale::in_language(lang, "Resume emitting ", "Снова отдавать ")@ + p
        + crate::locale::in_language(
        lang,
        " in this server's subscription URLs. Live sing-box inbound was never stopped; this just unmutes the render.",
        " в URL подписок этого сервера. Живой sing-box inbound никто не останавливал; это только снимает mute с рендера.",
    )@
}

/// Why no kernel of the server runs a protocol.
pub open spec fn unsupported_text(host: ProtocolHost, lang: Locale) -> Seq<char> {
    let who = if host.kernels@.len() == 1 {
        crate::locale::in_language(lang, "kernel ", "ядром ")@ + host.kernels@[0]@
    } else {
        crate::locale::in_language(
            lang,
            "any kernel on this server: ",
            "ни одним ядром на этом сервере: ",
        )@ + crate::text::join_text(crate::text::texts(host.kernels@), ", "@)
    };
    crate::locale::in_language(lang, "(not supported by ", "(не поддерживается ")@ + who + ")"@
}

/// `s` is what can be done with protocol `p`.
pub open spec fn protocol_state(
    s: ProtocolState,
    p: ProtocolEntry,
    host: ProtocolHost,
    lang: Locale,
) -> bool {
    let on = crate::text::texts(host.enabled@).contains(p.id@);
    let compatible = supported(host, p.id@);
    let hidden = hidden_in(host.hidden@, p.id@);
    let off_title = disable_title(p.id@, host.id@, lang);
    if on && !compatible {
        s matches ProtocolState::Stray { disable, hidden: h } && form_of(
            disable,
            host,
            p,
            "/disable"@,
            off_title,
        ) && h == hidden
    } else if on && hidden {
        s matches ProtocolState::Hidden { disable, unhide } && form_of(
            disable,
            host,
            p,
            "/disable"@,
            off_title,
        ) && form_of(unhide, host, p, "/unhide"@, unhide_title(p.id@, lang))
    } else if on {
        s matches ProtocolState::On { disable, hide } && form_of(
            disable,
            host,
            p,
            "/disable"@,
            off_title,
        ) && form_of(hide, host, p, "/hide"@, hide_title(p.id@, lang))
    } else if compatible {
        s matches ProtocolState::Off { enable } && form_of(
            enable,
            host,
            p,
            "/enable"@,
            enable_title(p.id@, host.id@, lang),
        )
    } else {
        s is Incompatible
    }
}

/// `r` is the row of protocol `p`.
pub open spec fn protocol_row(
    r: ProtocolRow,
    p: ProtocolEntry,
    host: ProtocolHost,
    lang: Locale,
) -> bool {
    &&& r.compatible == supported(host, p.id@)
    &&& r.style@ == "flex: 1; color: "@ + (if r.compatible {
        "var(--ink)"@
    } else {
        "var(--mute)"@
    }) + "; font-size: "@ + (if p.weak {
        "11px"@
    } else {
        "12px"@
    }) + ";"@
    &&& crate::text::opt_string(r.unsupported) == (if r.compatible {
        None
    } else {
        Some(unsupported_text(host, lang))
    })
    &&& protocol_state(r.state, p, host, lang)
}

fn form(
    host: &ProtocolHost,
    p: &ProtocolEntry,
    verb: &str,
    title: String,
) -> (r: ProtocolForm)
    ensures
        form_of(r, *host, *p, verb@, title@),
{
    ProtocolForm {
        action: cat5(
            "/admin/servers/",
            host.path.as_str(),
            "/protocols/",
            p.path.as_str(),
            verb,
        ),
        title,
    }
}

fn is_supported(host: &ProtocolHost, id: &str) -> (r: bool)
    ensures
        r == supported(*host, id@),
{
    let mut k: usize = 0;
    while k < host.kernel_supports.len()
        invariant
            k <= host.kernel_supports.len(),
            forall|j: int|
                0 <= j < k ==> !crate::text::texts(
                    (#[trigger] host.kernel_supports@[j])@,
                ).contains(id@),
        decreases host.kernel_supports.len() - k,
    {
        if has_text(&host.kernel_supports[k], id) {
            return true;
        }
        k = k + 1;
    }
    false
}

fn row_of(host: &ProtocolHost, p: &ProtocolEntry, lang: Locale) -> (r: ProtocolRow)
    ensures
        protocol_row(r, *p, *host, lang),
{
    let id = p.id.as_str();
    let server = host.id.as_str();
    let on = has_text(&host.enabled, id);
    let compatible = is_supported(host, id);
    let hidden = is_hidden(&host.hidden, id);
    let style = cat5(
        "flex: 1; color: ",
        if compatible {
            "var(--ink)"
        } else {
            "var(--mute)"
        },
        "; font-size: ",
        if p.weak {
            "11px"
        } else {
            "12px"
        },
        ";",
    );
    let unsupported = if compatible {
        None
    } else {
        let who = if host.kernels.len() == 1 {
            cat2(tr(lang, "kernel ", "ядром "), host.kernels[0].as_str())
        } else {
            let all = join(&host.kernels, ", ");
            cat2(
                tr(lang, "any kernel on this server: ", "ни одним ядром на этом сервере: "),
                all.as_str(),
            )
        };
        Some(cat3(tr(lang, "(not supported by ", "(не поддерживается "), who.as_str(), ")"))
    };
    let off_title = match lang {
        Locale::En => cat5(
            "Remove ",
            id,
            " from ",
            server,
            ".enabled_protocols. Takes effect on next deploy.",
        ),
        Locale::Ru => cat5(
            "Убрать ",
            id,
            " из ",
            server,
            ".enabled_protocols. Применится при следующем деплое.",
        ),
    };
    let state = if on && !compatible {
        ProtocolState::Stray { disable: form(host, p, "/disable", off_title), hidden }
    } else if on && hidden {
        let title = cat3(
            tr(lang, "Resume emitting ", "Снова отдавать "),
            id,
            tr(
                lang,
                " in this server's subscription URLs. Live sing-box inbound was never stopped; this just unmutes the render.",
                " в URL подписок этого сервера. Живой sing-box inbound никто не останавливал; это только снимает mute с рендера.",
            ),
        );
        ProtocolState::Hidden {
            disable: form(host, p, "/disable", off_title),
            unhide: form(host, p, "/unhide", title),
        }
    } else if on {
        let title = cat3(
            tr(lang, "Stop emitting ", "Перестать отдавать "),
            id,
            tr(
                lang,
                " in this server's subscription URLs WITHOUT removing the live inbound. Existing client URIs keep working until they re-pull.",
                " в URL подписок этого сервера БЕЗ удаления живого inbound. Закешированные клиентские URI продолжают работать до следующего pull.",
            ),
        );
        ProtocolState::On {
            disable: form(host, p, "/disable", off_title),
            hide: form(host, p, "/hide", title),
        }
    } else if compatible {
        let title = match lang {
            Locale::En => cat5(
                "Add ",
                id,
                " to ",
                server,
                ".enabled_protocols. Takes effect on next deploy.",
            ),
            Locale::Ru => cat5(
                "Добавить ",
                id,
                " в ",
                server,
                ".enabled_protocols. Применится при следующем деплое.",
            ),
        };
        ProtocolState::Off { enable: form(host, p, "/enable", title) }
    } else {
        ProtocolState::Incompatible
    };
    ProtocolRow { compatible, style, unsupported, state }
}

/// The protocols of the registry, in its order, and what can be done with
/// each on the server.
pub fn server_detail_protocols_section(
    protocols: &Vec<ProtocolEntry>,
    host: &ProtocolHost,
    lang: Locale,
) -> (r: Vec<ProtocolRow>)
    ensures
        r@.len() == protocols@.len(),
        forall|i: int|
            0 <= i < r@.len() ==> protocol_row(#[trigger] r@[i], protocols@[i], *host, lang),
{
    let mut r: Vec<ProtocolRow> = Vec::new();
    let mut i: usize = 0;
    while i < protocols.len()
        invariant
            i <= protocols.len(),
            r@.len() == i,
            forall|j: int|
                0 <= j < i ==> protocol_row(#[trigger] r@[j], protocols@[j], *host, lang),
        decreases protocols.len() - i,
    {
        r.push(row_of(host, &protocols[i], lang));
        i = i + 1;
    }
    r
}

/// A protocol with its flags for a user.
pub struct GridEntry {
    pub id: String,
    /// The id, path-encoded.
    pub path: String,
    /// Hidden on the server.
    pub hidden: bool,
    /// Blocked for the user.
    pub blocked: bool,
    /// The registry rates it as easy to detect.
    pub weak: bool,
}

/// Whether a user gets a protocol.
pub enum Delivery {
    HiddenAndBlocked { enable: String },
    Hidden,
    Blocked { enable: String, title: String },
    Delivered { disable: String, title: String },
}

/// Row of the delivery grid.
pub struct GridRow {
    /// Position of the entry.
    pub at: usize,
    pub style: String,
    pub delivery: Delivery,
}

/// Entries are listed by id.
pub open spec fn entry_before(es: Seq<GridEntry>) -> spec_fn(int, int) -> bool {
    |a: int, b: int| crate::order::lex_lt(es[a].id@, es[b].id@)
}

/// Where the block of a protocol is set or lifted.
pub open spec fn override_url(
    user: Seq<char>,
    server: Seq<char>,
    protocol: Seq<char>,
    verb: Seq<char>,
) -> Seq<char> {
    "/admin/users/"@ + user + "/grants/"@ + server + "/protocols/"@ + protocol + verb
}

/// What lifting the block does.
pub open spec fn unblock_title(p: Seq<char>, user: Seq<char>, server: Seq<char>, lang: Locale) -> Seq<
    char,
> {
    match lang {
        Locale::En => "Deliver "@ + p + " to "@ + user + " again on "@ + server,
        Locale::Ru => "Начать снова доставлять "@ + p + " пользователю "@ + user + " на "@ + server,
    }
}

/// What setting the block does.
pub open spec fn block_title(p: Seq<char>, user: Seq<char>, server: Seq<char>, lang: Locale) -> Seq<
    char,
> {
    match lang {
        Locale::En => "Stop delivering "@ + p + " to "@ + user + " on "@ + server
            + " (per-user override; other users keep getting it)"@,
        Locale::Ru => "Перестать доставлять "@ + p + " пользователю "@ + user + " на "@ + server
            + " (per-user override; остальным продолжает идти)"@,
    }
}

/// Who gets what, with ids as they stand and path-encoded.
pub struct GridPlace {
    pub user: String,
    pub user_path: String,
    pub server: String,
    pub server_path: String,
}

/// `d` says whether the user gets `e`: only if it is neither hidden on the
/// server nor blocked for the user.
pub open spec fn delivery_of(d: Delivery, e: GridEntry, at: GridPlace, lang: Locale) -> bool {
    let enable_url = override_url(at.user_path@, at.server_path@, e.path@, "/enable"@);
    let disable_url = override_url(at.user_path@, at.server_path@, e.path@, "/disable"@);
    match (e.hidden, e.blocked) {
        (true, true) => d matches Delivery::HiddenAndBlocked { enable } && enable@ == enable_url,
        (true, false) => d is Hidden,
        (false, true) => d matches Delivery::Blocked { enable, title } && enable@ == enable_url
            && title@ == unblock_title(e.id@, at.user@, at.server@, lang),
        (false, false) => d matches Delivery::Delivered { disable, title } && disable@
            == disable_url && title@ == block_title(e.id@, at.user@, at.server@, lang),
    }
}

/// `r` is the row of entry `at`.
pub open spec fn grid_row(r: GridRow, es: Seq<GridEntry>, place: GridPlace, lang: Locale) -> bool {
    let e = es[r.at as int];
    &&& r.style@ == "flex: 1; color: var(--ink); font-size: "@ + (if e.weak {
        "10px"@
    } else {
        "11px"@
    }) + ";"@
    &&& delivery_of(r.delivery, e, place, lang)
}

/// `rows` lists every entry by id.
pub open spec fn grid_rows(
    rows: Seq<GridRow>,
    es: Seq<GridEntry>,
    place: GridPlace,
    lang: Locale,
) -> bool {
    &&& crate::order::stably_sorted(
        rows.map_values(|r: GridRow| r.at),
        es.len() as int,
        entry_before(es),
    )
    &&& forall|i: int| 0 <= i < rows.len() ==> grid_row(#[trigger] rows[i], es, place, lang)
}

fn override_path(place: &GridPlace, protocol: &str, verb: &str) -> (r: String)
    ensures
        r@ == override_url(place.user_path@, place.server_path@, protocol@, verb@),
{
    let head = cat4(
        "/admin/users/",
        place.user_path.as_str(),
        "/grants/",
        place.server_path.as_str(),
    );
    cat4(head.as_str(), "/protocols/", protocol, verb)
}

fn deliver(e: &GridEntry, place: &GridPlace, lang: Locale) -> (r: Delivery)
    ensures
        delivery_of(r, *e, *place, lang),
{
    let path = e.path.as_str();
    let id = e.id.as_str();
    let user = place.user.as_str();
    let server = place.server.as_str();
    if e.hidden && e.blocked {
        Delivery::HiddenAndBlocked { enable: override_path(place, path, "/enable") }
    } else if e.hidden {
        Delivery::Hidden
    } else if e.blocked {
        let head = match lang {
            Locale::En => cat4("Deliver ", id, " to ", user),
            Locale::Ru => cat4("Начать снова доставлять ", id, " пользователю ", user),
        };
        Delivery::Blocked {
            enable: override_path(place, path, "/enable"),
            title: cat3(head.as_str(), tr(lang, " again on ", " на "), server),
        }
    } else {
        let head = match lang {
            Locale::En => cat4("Stop delivering ", id, " to ", user),
            Locale::Ru => cat4("Перестать доставлять ", id, " пользователю ", user),
        };
        Delivery::Delivered {
            disable: override_path(place, path, "/disable"),
            title: cat4(
                head.as_str(),
                tr(lang, " on ", " на "),
                server,
                tr(
                    lang,
                    " (per-user override; other users keep getting it)",
                    " (per-user override; остальным продолжает идти)",
                ),
            ),
        }
    }
}

/// Which protocols of a server a user gets, by protocol id. Empty where the
/// server has none.
pub fn user_detail_per_protocol_grid(
    entries: &Vec<GridEntry>,
    place: &GridPlace,
    lang: Locale,
) -> (r: Vec<GridRow>)
    ensures
        grid_rows(r@, entries@, *place, lang),
{
    let ghost before = entry_before(entries@);
    proof {
        assert forall|x: int, y: int|
            0 <= x < entries@.len() && 0 <= y < entries@.len() && #[trigger] before(
                x,
                y,
            ) implies !before(y, x) by {
            crate::order::lex_lt_asymmetric(entries@[x].id@, entries@[y].id@);
        }
        assert forall|x: int, y: int, z: int|
            0 <= x < entries@.len() && 0 <= y < entries@.len() && 0 <= z < entries@.len()
                && #[trigger] before(x, z) implies #[trigger] before(x, y) || before(y, z) by {
            crate::order::lex_lt_splits(entries@[x].id@, entries@[y].id@, entries@[z].id@);
        }
    }
    let less = |a: usize, b: usize| -> (c: bool)
        requires
            a < entries@.len(),
            b < entries@.len(),
        ensures
            c == entry_before(entries@)(a as int, b as int),
        { text_before(entries[a].id.as_str(), entries[b].id.as_str()) };
    let order = stable_order(entries.len(), less, Ghost(before));
    let mut rows: Vec<GridRow> = Vec::new();
    let mut i: usize = 0;
    while i < order.len()
        invariant
            i <= order.len(),
            rows@.len() == i,
            crate::order::stably_sorted(order@, entries@.len() as int, entry_before(entries@)),
            forall|j: int| 0 <= j < i ==> (#[trigger] rows@[j]).at == order@[j],
            forall|j: int| 0 <= j < i ==> grid_row(#[trigger] rows@[j], entries@, *place, lang),
        decreases order.len() - i,
    {
        let at: usize = order[i];
        let e = &entries[at];
        rows.push(
            GridRow {
                at,
                style: cat3(
                    "flex: 1; color: var(--ink); font-size: ",
                    if e.weak {
                        "10px"
                    } else {
                        "11px"
                    },
                    ";",
                ),
                delivery: deliver(e, place, lang),
            },
        );
        i = i + 1;
    }
    assert(rows@.map_values(|r: GridRow| r.at) =~= order@);
    rows
}

/// Either flag alone keeps a protocol from a user; a user gets it exactly
/// where neither is set.
pub proof fn delivered_iff_neither(d: Delivery, e: GridEntry, at: GridPlace, lang: Locale)
    requires
        delivery_of(d, e, at, lang),
    ensures
        d is Delivered <==> !e.hidden && !e.blocked,
{
}

/// What came of storing a block.
pub enum OverrideOutcome {
    Saved,
    /// The inventory rejected it.
    Invalid(String),
    Failed,
}

/// How to answer a request.
pub enum OverrideReply {
    Redirect(String),
    BadRequest(String),
    InternalError,
}

/// `r` answers the request of the user with path-encoded id `user`: back to
/// the access page, the inventory's message, or a failure.
pub open spec fn override_reply(r: OverrideReply, o: OverrideOutcome, user: Seq<char>) -> bool {
    match o {
        OverrideOutcome::Saved => r matches OverrideReply::Redirect(url) && url@ == "/admin/users/"@
            + user + "/access#server-access"@,
        OverrideOutcome::Invalid(msg) => r matches OverrideReply::BadRequest(m) && m@ == msg@,
        OverrideOutcome::Failed => r is InternalError,
    }
}

fn reply(outcome: &OverrideOutcome, user: &str) -> (r: OverrideReply)
    ensures
        override_reply(r, *outcome, user@),
{
    match outcome {
        OverrideOutcome::Saved => OverrideReply::Redirect(
            cat3("/admin/users/", user, "/access#server-access"),
        ),
        OverrideOutcome::Invalid(msg) => OverrideReply::BadRequest(msg.clone()),
        OverrideOutcome::Failed => OverrideReply::InternalError,
    }
}

/// A request about one protocol of one user's grant.
pub enum OverrideRequest {
    /// Block the protocol.
    Disable,
    /// Deliver it again.
    Enable,
}

/// The block that a request asks to store.
pub fn stored_override(request: &OverrideRequest) -> (r: bool)
    ensures
        r == (request is Disable),
{
    match request {
        OverrideRequest::Disable => true,
        OverrideRequest::Enable => false,
    }
}

/// Once the block that a request asks for is stored, a disabled protocol is
/// not delivered, and an enabled one is delivered exactly where its node does
/// not hide it.
pub proof fn stored_override_decides(
    d: Delivery,
    e: GridEntry,
    at: GridPlace,
    lang: Locale,
    request: OverrideRequest,
)
    requires
        delivery_of(d, e, at, lang),
        e.blocked == (request is Disable),
    ensures
        request is Disable ==> !(d is Delivered),
        request is Enable ==> (d is Delivered <==> !e.hidden),
{
}

/// How to answer a request to block a protocol for a user.
pub fn grant_protocol_disable(outcome: &OverrideOutcome, user: &str) -> (r: OverrideReply)
    ensures
        override_reply(r, *outcome, user@),
{
    reply(outcome, user)
}

/// How to answer a request to deliver a protocol to a user again.
pub fn grant_protocol_enable(outcome: &OverrideOutcome, user: &str) -> (r: OverrideReply)
    ensures
        override_reply(r, *outcome, user@),
{
    reply(outcome, user)
}

} // verus!
