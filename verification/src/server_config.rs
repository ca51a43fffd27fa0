//! Configuration forms of a server: kernels, protocols, routing, billing and
//! switches.
use crate::lists::has_text;
use crate::locale::{tr, Locale};
use crate::order::{stable_order, text_before};
use crate::text::{cat2, cat3, cat5, dec, dec2, is_empty, join, same};
use vstd::prelude::*;

verus! {

/// A kernel that the registry knows.
pub struct KernelEntry {
    pub id: String,
    /// The id, path-encoded.
    pub path: String,
    /// Rank in listings.
    pub priority: u32,
    /// Ids of the protocols it runs.
    pub supports: Vec<String>,
}

/// Row of a kernel.
pub struct KernelRow {
    /// Position of the kernel in the registry.
    pub at: usize,
    pub on: bool,
    /// The protocols it runs, comma-separated.
    pub supported: String,
    /// Where the switch posts to.
    pub action: String,
    /// What the switch does.
    pub title: String,
}

/// Kernels are listed by rank, then by id.
pub open spec fn kernel_before(ks: Seq<KernelEntry>) -> spec_fn(int, int) -> bool {
    |a: int, b: int|
        ks[a].priority < ks[b].priority || (ks[a].priority == ks[b].priority
            && crate::order::lex_lt(ks[a].id@, ks[b].id@))
}

/// What the switch of a kernel does, in words.
pub open spec fn kernel_title(on: bool, kernel: Seq<char>, server: Seq<char>, lang: Locale) -> Seq<
    char,
> {
    match (on, lang) {
        (true, Locale::En) => "Remove "@ + kernel + " from "@ + server
            + ".kernels. Takes effect on next deploy."@,
        (true, Locale::Ru) => "Убрать "@ + kernel + " из "@ + server
            + ".kernels. Применится при следующем деплое."@,
        (false, Locale::En) => "Add "@ + kernel + " to "@ + server
            + ".kernels. Takes effect on next deploy."@,
        (false, Locale::Ru) => "Добавить "@ + kernel + " в "@ + server
            + ".kernels. Применится при следующем деплое."@,
    }
}

/// `r` is the row of kernel `at`.
pub open spec fn kernel_row(
    r: KernelRow,
    at: int,
    ks: Seq<KernelEntry>,
    enabled: Seq<Seq<char>>,
    server: Seq<char>,
    sid_enc: Seq<char>,
    lang: Locale,
) -> bool {
    let k = ks[at];
    &&& r.at == at
    &&& r.on == enabled.contains(k.id@)
    &&& r.supported@ == crate::text::join_text(crate::text::texts(k.supports@), ", "@)
    &&& r.action@ == "/admin/servers/"@ + sid_enc + "/kernels/"@ + k.path@ + (if r.on {
        "/disable"@
    } else {
        "/enable"@
    })
    &&& r.title@ == kernel_title(r.on, k.id@, server, lang)
}

/// `rows` lists every kernel by rank and id.
pub open spec fn kernel_rows(
    rows: Seq<KernelRow>,
    ks: Seq<KernelEntry>,
    enabled: Seq<Seq<char>>,
    server: Seq<char>,
    sid_enc: Seq<char>,
    lang: Locale,
) -> bool {
    &&& crate::order::stably_sorted(
        rows.map_values(|r: KernelRow| r.at),
        ks.len() as int,
        kernel_before(ks),
    )
    &&& forall|i: int|
        0 <= i < rows.len() ==> kernel_row(
            #[trigger] rows[i],
            rows[i].at as int,
            ks,
            enabled,
            server,
            sid_enc,
            lang,
        )
}

proof fn lemma_kernel_order(ks: Seq<KernelEntry>)
    ensures
        crate::order::orders(ks.len() as int, kernel_before(ks)),
{
    let before = kernel_before(ks);
    assert forall|x: int, y: int|
        0 <= x < ks.len() && 0 <= y < ks.len() && #[trigger] before(x, y) implies !before(y, x) by {
        crate::order::lex_lt_asymmetric(ks[x].id@, ks[y].id@);
    }
    assert forall|x: int, y: int, z: int|
        0 <= x < ks.len() && 0 <= y < ks.len() && 0 <= z < ks.len() && #[trigger] before(
            x,
            z,
        ) implies #[trigger] before(x, y) || before(y, z) by {
        if crate::order::lex_lt(ks[x].id@, ks[z].id@) {
            crate::order::lex_lt_splits(ks[x].id@, ks[y].id@, ks[z].id@);
        }
    }
}

/// The kernels of the registry with their switches, for the server `server`
/// with path-encoded id `sid_enc`.
pub fn server_detail_kernels_section(
    kernels: &Vec<KernelEntry>,
    enabled: &Vec<String>,
    server: &str,
    sid_enc: &str,
    lang: Locale,
) -> (r: Vec<KernelRow>)
    ensures
        kernel_rows(
            r@,
            kernels@,
            crate::text::texts(enabled@),
            server@,
            sid_enc@,
            lang,
        ),
{
    let ghost before = kernel_before(kernels@);
    proof {
        lemma_kernel_order(kernels@);
    }
    let less = |a: usize, b: usize| -> (c: bool)
        requires
            a < kernels@.len(),
            b < kernels@.len(),
        ensures
            c == kernel_before(kernels@)(a as int, b as int),
        {
            kernels[a].priority < kernels[b].priority || (kernels[a].priority == kernels[b].priority
                && text_before(kernels[a].id.as_str(), kernels[b].id.as_str()))
        };
    let order = stable_order(kernels.len(), less, Ghost(before));
    let mut rows: Vec<KernelRow> = Vec::new();
    let mut i: usize = 0;
    while i < order.len()
        invariant
            i <= order.len(),
            rows@.len() == i,
            crate::order::stably_sorted(order@, kernels@.len() as int, kernel_before(kernels@)),
            forall|j: int| 0 <= j < i ==> (#[trigger] rows@[j]).at == order@[j],
            forall|j: int|
                0 <= j < i ==> kernel_row(
                    #[trigger] rows@[j],
                    rows@[j].at as int,
                    kernels@,
                    crate::text::texts(enabled@),
                    server@,
                    sid_enc@,
                    lang,
                ),
        decreases order.len() - i,
    {
        let at: usize = order[i];
        let k = &kernels[at];
        let on = has_text(enabled, k.id.as_str());
        let action = cat5(
            "/admin/servers/",
            sid_enc,
            "/kernels/",
            k.path.as_str(),
            if on {
                "/disable"
            } else {
                "/enable"
            },
        );
        let id = k.id.as_str();
        let title = match lang {
            Locale::En => if on {
                cat5(
                    "Remove ",
                    id,
                    " from ",
                    server,
                    ".kernels. Takes effect on next deploy.",
                )
            } else {
                cat5("Add ", id, " to ", server, ".kernels. Takes effect on next deploy.")
            },
            Locale::Ru => if on {
                cat5(
                    "Убрать ",
                    id,
                    " из ",
                    server,
                    ".kernels. Применится при следующем деплое.",
                )
            } else {
                cat5(
                    "Добавить ",
                    id,
                    " в ",
                    server,
                    ".kernels. Применится при следующем деплое.",
                )
            },
        };
        rows.push(KernelRow { at, on, supported: join(&k.supports, ", "), action, title });
        i = i + 1;
    }
    assert(rows@.map_values(|r: KernelRow| r.at) =~= order@);
    rows
}

/// One choice of a selection.
pub struct ServerChoice {
    /// The server id; empty for no server.
    pub value: String,
    pub selected: bool,
}

/// The other servers among the first `n` candidates, in order.
pub open spec fn other_servers(candidates: Seq<String>, server: Seq<char>, n: int) -> Seq<Seq<char>>
    decreases n,
{
    if n <= 0 {
        Seq::empty()
    } else {
        let before = other_servers(candidates, server, n - 1);
        if candidates[n - 1]@ != server {
            before.push(candidates[n - 1]@)
        } else {
            before
        }
    }
}

/// `r` offers no server and then every candidate but the server itself; the
/// current one is selected.
pub open spec fn server_choices(
    r: Seq<ServerChoice>,
    server: Seq<char>,
    current: Option<Seq<char>>,
    candidates: Seq<String>,
) -> bool {
    let others = other_servers(candidates, server, candidates.len() as int);
    &&& r.len() == others.len() + 1
    &&& r[0].value@ == Seq::<char>::empty()
    &&& r[0].selected == (current is None)
    &&& forall|i: int|
        1 <= i < r.len() ==> (#[trigger] r[i]).value@ == others[i - 1] && r[i].selected == (current
            == Some(others[i - 1]))
}

fn choices(server: &str, current: Option<&str>, candidates: &Vec<String>) -> (r: Vec<ServerChoice>)
    ensures
        server_choices(r@, server@, crate::text::opt_text(current), candidates@),
{
    let mut r: Vec<ServerChoice> = Vec::new();
    r.push(ServerChoice { value: String::new(), selected: current.is_none() });
    let ghost now = crate::text::opt_text(current);
    let mut i: usize = 0;
    while i < candidates.len()
        invariant
            i <= candidates.len(),
            now == crate::text::opt_text(current),
            r@.len() == other_servers(candidates@, server@, i as int).len() + 1,
            r@[0].value@ == Seq::<char>::empty(),
            r@[0].selected == (now is None),
            forall|j: int|
                1 <= j < r@.len() ==> (#[trigger] r@[j]).value@ == other_servers(
                    candidates@,
                    server@,
                    i as int,
                )[j - 1] && r@[j].selected == (now == Some(
                    other_servers(candidates@, server@, i as int)[j - 1],
                )),
        decreases candidates.len() - i,
    {
        if !same(candidates[i].as_str(), server) {
            let selected = match current {
                Some(c) => same(c, candidates[i].as_str()),
                None => false,
            };
            r.push(ServerChoice { value: candidates[i].clone(), selected });
        }
        i = i + 1;
    }
    r
}

/// What a server is for.
#[derive(Clone, Copy, PartialEq, Eq, Structural, Debug)]
pub enum ServerRole {
    VpnExit,
    WorkloadOnly,
}

/// The routing policy form.
pub struct RoutingPolicy {
    pub action: String,
    pub vpn_exit: bool,
    pub workload_only: bool,
    pub jump_choices: Vec<ServerChoice>,
    /// Why the management route is invalid.
    pub warning: Option<String>,
}

/// The routing policy form of a server, offering the other servers as jump
/// hosts.
pub fn server_detail_routing_policy_section(
    server: &str,
    sid_enc: &str,
    role: ServerRole,
    jump_via: Option<&str>,
    candidates: &Vec<String>,
    routing_error: Option<&str>,
) -> (r: RoutingPolicy)
    ensures
        r.action@ == "/admin/servers/"@ + sid_enc@ + "/routing-policy"@,
        r.vpn_exit == (role is VpnExit),
        r.workload_only == (role is WorkloadOnly),
        server_choices(
            r.jump_choices@,
            server@,
            crate::text::opt_text(jump_via),
            candidates@,
        ),
        match routing_error {
            Some(e) => r.warning matches Some(w) && w@ == "management route invalid: "@ + e@,
            None => r.warning is None,
        },
{
    RoutingPolicy {
        action: cat3("/admin/servers/", sid_enc, "/routing-policy"),
        vpn_exit: match role {
            ServerRole::VpnExit => true,
            ServerRole::WorkloadOnly => false,
        },
        workload_only: match role {
            ServerRole::VpnExit => false,
            ServerRole::WorkloadOnly => true,
        },
        jump_choices: choices(server, jump_via, candidates),
        warning: match routing_error {
            Some(e) => Some(cat2("management route invalid: ", e)),
            None => None,
        },
    }
}

/// The client entry form.
pub struct ClientDetour {
    pub action: String,
    pub choices: Vec<ServerChoice>,
}

/// The client entry form of a server, offering the other servers as entry.
pub fn server_detail_client_detour_section(
    server: &str,
    sid_enc: &str,
    current: Option<&str>,
    candidates: &Vec<String>,
) -> (r: ClientDetour)
    ensures
        r.action@ == "/admin/servers/"@ + sid_enc@ + "/client-detour"@,
        server_choices(r.choices@, server@, crate::text::opt_text(current), candidates@),
{
    ClientDetour {
        action: cat3("/admin/servers/", sid_enc, "/client-detour"),
        choices: choices(server, current, candidates),
    }
}

proof fn lemma_others_exclude(candidates: Seq<String>, server: Seq<char>, n: int)
    ensures
        !other_servers(candidates, server, n).contains(server),
    decreases n,
{
    if n > 0 {
        lemma_others_exclude(candidates, server, n - 1);
        let before = other_servers(candidates, server, n - 1);
        let now = other_servers(candidates, server, n);
        if now.contains(server) {
            let i = now.index_of(server);
            assert(i < before.len() ==> before[i] == server);
        }
    }
}

/// A server that has an id is never offered itself.
pub proof fn choices_exclude_server(
    r: Seq<ServerChoice>,
    server: Seq<char>,
    current: Option<Seq<char>>,
    candidates: Seq<String>,
    i: int,
)
    requires
        server_choices(r, server, current, candidates),
        server.len() > 0,
        0 <= i < r.len(),
    ensures
        r[i].value@ != server,
{
    lemma_others_exclude(candidates, server, candidates.len() as int);
    if i > 0 {
        let others = other_servers(candidates, server, candidates.len() as int);
        assert(r[i].value@ == others[i - 1]);
        if others[i - 1] == server {
            assert(others.contains(server));
        }
    }
}

/// A secret of a server.
pub struct Secret {
    pub key: String,
    pub value: String,
}

/// The value of the first entry for `key`.
pub open spec fn secret_of(secrets: Seq<Secret>, key: Seq<char>) -> Option<Seq<char>>
    decreases secrets.len(),
{
    if secrets.len() == 0 {
        None
    } else if secrets[0].key@ == key {
        Some(secrets[0].value@)
    } else {
        secret_of(secrets.skip(1), key)
    }
}

/// The value for `key`, empty where there is none.
pub open spec fn secret_or_empty(secrets: Seq<Secret>, key: Seq<char>) -> Seq<char> {
    match secret_of(secrets, key) {
        Some(v) => v,
        None => Seq::empty(),
    }
}

fn find_secret(secrets: &Vec<Secret>, key: &str) -> (r: Option<String>)
    ensures
        crate::text::opt_string(r) == secret_of(secrets@, key@),
{
    let mut i: usize = 0;
    assert(secrets@.skip(0) =~= secrets@);
    while i < secrets.len()
        invariant
            i <= secrets.len(),
            secret_of(secrets@, key@) == secret_of(secrets@.skip(i as int), key@),
        decreases secrets.len() - i,
    {
        assert(secrets@.skip(i as int).skip(1) =~= secrets@.skip(i + 1));
        if same(secrets[i].key.as_str(), key) {
            return Some(secrets[i].value.clone());
        }
        i = i + 1;
    }
    None
}

fn secret_text(secrets: &Vec<Secret>, key: &str) -> (r: String)
    ensures
        r@ == secret_or_empty(secrets@, key@),
{
    match find_secret(secrets, key) {
        Some(v) => v,
        None => String::new(),
    }
}

/// The naive form.
pub struct NaiveConfig {
    pub action: String,
    pub domain: String,
    pub email: String,
}

/// The naive form, only where that protocol is enabled.
pub fn server_detail_naive_config_section(
    enabled: &Vec<String>,
    secrets: &Vec<Secret>,
    sid_enc: &str,
) -> (r: Option<NaiveConfig>)
    ensures
        r is Some <==> crate::text::texts(enabled@).contains("naive"@),
        r matches Some(f) ==> {
            &&& f.action@ == "/admin/servers/"@ + sid_enc@ + "/naive-config"@
            &&& f.domain@ == secret_or_empty(secrets@, "naive.domain"@)
            &&& f.email@ == secret_or_empty(secrets@, "naive.acme_email"@)
        },
{
    if !has_text(enabled, "naive") {
        return None;
    }
    Some(
        NaiveConfig {
            action: cat3("/admin/servers/", sid_enc, "/naive-config"),
            domain: secret_text(secrets, "naive.domain"),
            email: secret_text(secrets, "naive.acme_email"),
        },
    )
}

/// The vless-ws form.
pub struct VlessWsConfig {
    pub action: String,
    pub domain: String,
    pub email: String,
    pub port: String,
    /// The secret path exists already.
    pub path_minted: bool,
    /// Says whether it does.
    pub path_note: &'static str,
}

/// The vless-ws form, only where that protocol is enabled.
pub fn server_detail_vlessws_config_section(
    enabled: &Vec<String>,
    secrets: &Vec<Secret>,
    sid_enc: &str,
    lang: Locale,
) -> (r: Option<VlessWsConfig>)
    ensures
        r is Some <==> crate::text::texts(enabled@).contains("vless-ws"@),
        r matches Some(f) ==> {
            &&& f.action@ == "/admin/servers/"@ + sid_enc@ + "/vlessws-config"@
            &&& f.domain@ == secret_or_empty(secrets@, "vlessws.domain"@)
            &&& f.email@ == secret_or_empty(secrets@, "vlessws.acme_email"@)
            &&& f.port@ == secret_or_empty(secrets@, "vlessws.listen_port"@)
            &&& f.path_minted == (secret_of(secrets@, "vlessws.path"@) is Some)
            &&& f.path_note == (if f.path_minted {
                crate::locale::in_language(lang, " The path is set.", " Путь задан.")
            } else {
                crate::locale::in_language(
                    lang,
                    " The path is not minted yet (deploy to generate it).",
                    " Путь ещё не сгенерирован (задеплой, чтобы создать его).",
                )
            })
        },
{
    if !has_text(enabled, "vless-ws") {
        return None;
    }
    let path_minted = find_secret(secrets, "vlessws.path").is_some();
    Some(
        VlessWsConfig {
            action: cat3("/admin/servers/", sid_enc, "/vlessws-config"),
            domain: secret_text(secrets, "vlessws.domain"),
            email: secret_text(secrets, "vlessws.acme_email"),
            port: secret_text(secrets, "vlessws.listen_port"),
            path_minted,
            path_note: if path_minted {
                tr(lang, " The path is set.", " Путь задан.")
            } else {
                tr(
                    lang,
                    " The path is not minted yet (deploy to generate it).",
                    " Путь ещё не сгенерирован (задеплой, чтобы создать его).",
                )
            },
        },
    )
}

/// The REALITY form.
pub struct RealityConfig {
    pub action: String,
    pub port: String,
}

/// The REALITY form, only where that protocol is enabled.
pub fn server_detail_reality_config_section(
    enabled: &Vec<String>,
    secrets: &Vec<Secret>,
    sid_enc: &str,
) -> (r: Option<RealityConfig>)
    ensures
        r is Some <==> crate::text::texts(enabled@).contains("vless+reality"@),
        r matches Some(f) ==> {
            &&& f.action@ == "/admin/servers/"@ + sid_enc@ + "/reality-config"@
            &&& f.port@ == secret_or_empty(secrets@, "vless.listen_port"@)
        },
{
    if !has_text(enabled, "vless+reality") {
        return None;
    }
    Some(
        RealityConfig {
            action: cat3("/admin/servers/", sid_enc, "/reality-config"),
            port: secret_text(secrets, "vless.listen_port"),
        },
    )
}

/// The display name form.
pub struct DisplayName {
    pub action: String,
    /// The label that clients see.
    pub label: String,
    pub value: String,
    /// No name is set; the label is made up.
    pub auto: bool,
}

/// The display name form; `effective` is the name that the server goes by.
pub fn server_detail_display_name_section(
    sid_enc: &str,
    current: Option<&str>,
    effective: &str,
) -> (r: DisplayName)
    ensures
        r.action@ == "/admin/servers/"@ + sid_enc@ + "/display-name"@,
        r.label@ == effective@ + " VLESS ~<user>"@,
        r.value@ == (match current {
            Some(c) => c@,
            None => Seq::empty(),
        }),
        r.auto == (current is None),
{
    DisplayName {
        action: cat3("/admin/servers/", sid_enc, "/display-name"),
        label: cat2(effective, " VLESS ~<user>"),
        value: match current {
            Some(c) => c.to_owned(),
            None => String::new(),
        },
        auto: current.is_none(),
    }
}

/// How often a server is paid for.
#[derive(Clone, Copy, PartialEq, Eq, Structural, Debug)]
pub enum BillingCycle {
    Monthly,
    Quarterly,
    SemiAnnual,
    Annual,
}

/// What a server costs.
pub struct ServerBilling {
    pub amount_cents: i64,
    pub currency: String,
    pub billing_cycle: BillingCycle,
    pub due_date: String,
    pub auto_renew: bool,
    pub billing_url: Option<String>,
    pub notes: Option<String>,
}

/// A cycle in words.
pub open spec fn cycle_text(c: BillingCycle, lang: Locale) -> &'static str {
    match c {
        BillingCycle::Monthly => crate::locale::in_language(lang, "month", "месяц"),
        BillingCycle::Quarterly => crate::locale::in_language(lang, "quarter", "квартал (3 мес)"),
        BillingCycle::SemiAnnual => crate::locale::in_language(lang, "6 months", "полгода (6 мес)"),
        BillingCycle::Annual => crate::locale::in_language(lang, "year", "год"),
    }
}

/// Hundredths with two decimals.
pub open spec fn amount_text(cents: int) -> Seq<char> {
    if cents < 0 {
        "-"@ + amount_text_unsigned(-cents)
    } else {
        amount_text_unsigned(cents)
    }
}

/// Hundredths with two decimals, without sign.
pub open spec fn amount_text_unsigned(cents: int) -> Seq<char> {
    crate::text::dec_text((cents / 100) as nat) + "."@ + crate::text::dec2_text(
        (cents % 100) as nat,
    )
}

fn amount(cents: i64) -> (r: String)
    ensures
        r@ == amount_text(cents as int),
{
    let size: u64 = if cents < 0 {
        (-(cents as i128)) as u64
    } else {
        cents as u64
    };
    let whole = dec(size / 100);
    let part = dec2(size % 100);
    let text = cat3(whole.as_str(), ".", part.as_str());
    if cents < 0 {
        cat2("-", text.as_str())
    } else {
        text
    }
}

/// The terms in words.
pub struct BillingSummary {
    /// Amount and currency.
    pub price: String,
    pub cycle: &'static str,
    pub due_date: String,
    pub auto_renew: bool,
    pub portal: Option<String>,
    /// Where the payment is recorded.
    pub advance: String,
    /// Notes that are not empty.
    pub notes: Option<String>,
}

/// The billing section.
pub struct BillingSection {
    pub action: String,
    pub return_to: String,
    pub summary: Option<BillingSummary>,
    pub due_date: String,
    pub cycle: BillingCycle,
    pub amount: String,
    pub currency: String,
    pub portal: String,
    pub notes: String,
    pub auto_renew: bool,
}

/// `s` sums up the terms `b`.
pub open spec fn billing_summary(
    s: BillingSummary,
    b: ServerBilling,
    sid_enc: Seq<char>,
    lang: Locale,
) -> bool {
    &&& s.price@ == amount_text(b.amount_cents as int) + " "@ + b.currency@
    &&& s.cycle == cycle_text(b.billing_cycle, lang)
    &&& s.due_date@ == b.due_date@
    &&& s.auto_renew == b.auto_renew
    &&& crate::text::opt_string(s.portal) == crate::text::opt_string(b.billing_url)
    &&& s.advance@ == "/admin/servers/"@ + sid_enc + "/billing/advance"@
    &&& crate::text::opt_string(s.notes) == (match b.notes {
        Some(n) => if n@.len() > 0 {
            Some(n@)
        } else {
            None
        },
        None => None,
    })
}

/// The text, empty where it is missing.
pub open spec fn or_empty(s: Option<String>) -> Seq<char> {
    match s {
        Some(s) => s@,
        None => Seq::empty(),
    }
}

/// `v` shows the terms of a server and prefills the form with them; a new
/// form starts with monthly payment in EUR.
pub open spec fn billing_section(
    v: BillingSection,
    current: Option<ServerBilling>,
    sid_enc: Seq<char>,
    lang: Locale,
) -> bool {
    &&& v.action@ == "/admin/servers/"@ + sid_enc + "/billing"@
    &&& v.return_to@ == "/admin/servers/"@ + sid_enc + "/setup"@
    &&& match current {
        Some(b) => {
            &&& v.summary matches Some(s) && billing_summary(s, b, sid_enc, lang)
            &&& v.due_date@ == b.due_date@
            &&& v.cycle == b.billing_cycle
            &&& v.amount@ == amount_text(b.amount_cents as int)
            &&& v.currency@ == b.currency@
            &&& v.portal@ == or_empty(b.billing_url)
            &&& v.notes@ == or_empty(b.notes)
            &&& v.auto_renew == b.auto_renew
        },
        None => {
            &&& v.summary is None
            &&& v.due_date@ == Seq::<char>::empty()
            &&& v.cycle == BillingCycle::Monthly
            &&& v.amount@ == Seq::<char>::empty()
            &&& v.currency@ == "EUR"@
            &&& v.portal@ == Seq::<char>::empty()
            &&& v.notes@ == Seq::<char>::empty()
            &&& !v.auto_renew
        },
    }
}

fn cycle_word(c: BillingCycle, lang: Locale) -> (r: &'static str)
    ensures
        r == cycle_text(c, lang),
{
    match c {
        BillingCycle::Monthly => tr(lang, "month", "месяц"),
        BillingCycle::Quarterly => tr(lang, "quarter", "квартал (3 мес)"),
        BillingCycle::SemiAnnual => tr(lang, "6 months", "полгода (6 мес)"),
        BillingCycle::Annual => tr(lang, "year", "год"),
    }
}

fn copy_of(s: &Option<String>) -> (r: String)
    ensures
        r@ == or_empty(*s),
{
    match s {
        Some(s) => s.clone(),
        None => String::new(),
    }
}

/// The billing section of the server with path-encoded id `sid_enc`.
pub fn server_detail_billing_section(
    sid_enc: &str,
    current: &Option<ServerBilling>,
    lang: Locale,
) -> (r: BillingSection)
    ensures
        billing_section(r, *current, sid_enc@, lang),
{
    let action = cat3("/admin/servers/", sid_enc, "/billing");
    let return_to = cat3("/admin/servers/", sid_enc, "/setup");
    match current {
        Some(b) => {
            let price = amount(b.amount_cents);
            BillingSection {
                action,
                return_to,
                summary: Some(
                    BillingSummary {
                        price: cat3(price.as_str(), " ", b.currency.as_str()),
                        cycle: cycle_word(b.billing_cycle, lang),
                        due_date: b.due_date.clone(),
                        auto_renew: b.auto_renew,
                        portal: match &b.billing_url {
                            Some(u) => Some(u.clone()),
                            None => None,
                        },
                        advance: cat3("/admin/servers/", sid_enc, "/billing/advance"),
                        notes: match &b.notes {
                            Some(n) => if is_empty(n.as_str()) {
                                None
                            } else {
                                Some(n.clone())
                            },
                            None => None,
                        },
                    },
                ),
                due_date: b.due_date.clone(),
                cycle: b.billing_cycle,
                amount: price,
                currency: b.currency.clone(),
                portal: copy_of(&b.billing_url),
                notes: copy_of(&b.notes),
                auto_renew: b.auto_renew,
            }
        },
        None => BillingSection {
            action,
            return_to,
            summary: None,
            due_date: String::new(),
            cycle: BillingCycle::Monthly,
            amount: String::new(),
            currency: "EUR".to_owned(),
            portal: String::new(),
            notes: String::new(),
            auto_renew: false,
        },
    }
}

/// A switch that posts the opposite of its state.
pub struct Switch {
    pub action: String,
    /// The state that posting sets.
    pub value: &'static str,
    pub background: &'static str,
    pub colour: &'static str,
}

/// `s` is the switch of the form `path`, now `on`: posting turns it over.
pub open spec fn switch_of(s: Switch, on: bool, sid_enc: Seq<char>, path: Seq<char>) -> bool {
    &&& s.action@ == "/admin/servers/"@ + sid_enc + path
    &&& s.value == (if on {
        "false"
    } else {
        "true"
    })
    &&& s.background == (if on {
        "transparent"
    } else {
        "var(--ink)"
    })
    &&& s.colour == (if on {
        "var(--ink)"
    } else {
        "var(--paper)"
    })
}

fn switch(on: bool, sid_enc: &str, path: &str) -> (r: Switch)
    ensures
        switch_of(r, on, sid_enc@, path@),
{
    Switch {
        action: cat3("/admin/servers/", sid_enc, path),
        value: if on {
            "false"
        } else {
            "true"
        },
        background: if on {
            "transparent"
        } else {
            "var(--ink)"
        },
        colour: if on {
            "var(--ink)"
        } else {
            "var(--paper)"
        },
    }
}

/// The value that a switch posts means the opposite of its state.
pub proof fn switch_negates(s: Switch, on: bool, sid_enc: Seq<char>, path: Seq<char>)
    requires
        switch_of(s, on, sid_enc, path),
    ensures
        (s.value@ == "true"@) == !on,
        (s.value@ == "false"@) == on,
{
    reveal_strlit("true");
    reveal_strlit("false");
    assert("true"@.len() != "false"@.len());
}

/// Whether a server is hidden while it is down.
pub enum SuppressState {
    /// Hidden since then.
    Suppressed(String),
    /// Will be hidden when it goes down.
    Armed,
    Off,
}

/// The auto-suppress section.
pub struct AutoSuppress {
    pub state: SuppressState,
    pub switch: Switch,
}

/// The auto-suppress section of a server.
pub fn server_detail_auto_suppress_section(
    sid_enc: &str,
    opt_in: bool,
    suppressed_at: Option<&str>,
) -> (r: AutoSuppress)
    ensures
        switch_of(r.switch, opt_in, sid_enc@, "/auto-suppress"@),
        match suppressed_at {
            Some(ts) => r.state matches SuppressState::Suppressed(s) && s@ == ts@,
            None => if opt_in {
                r.state is Armed
            } else {
                r.state is Off
            },
        },
{
    AutoSuppress {
        state: match suppressed_at {
            Some(ts) => SuppressState::Suppressed(ts.to_owned()),
            None => if opt_in {
                SuppressState::Armed
            } else {
                SuppressState::Off
            },
        },
        switch: switch(opt_in, sid_enc, "/auto-suppress"),
    }
}

/// The switch of UDP pairing of a server.
pub fn server_detail_udp_pair_section(sid_enc: &str, enabled: bool) -> (r: Switch)
    ensures
        switch_of(r, enabled, sid_enc@, "/udp-pair"@),
{
    switch(enabled, sid_enc, "/udp-pair")
}

/// The reserved ports form.
pub struct ReservedPorts {
    pub action: String,
    /// The ports as the form takes them.
    pub prefill: String,
    /// The ports as the page lists them.
    pub listed: String,
}

/// Port numbers in decimal.
pub open spec fn port_texts(ports: Seq<u16>) -> Seq<Seq<char>> {
    ports.map_values(|p: u16| crate::text::dec_text(p as nat))
}

/// The reserved ports form of a server.
pub fn server_detail_reserved_ports_section(sid_enc: &str, reserved: &Vec<u16>) -> (r:
    ReservedPorts)
    ensures
        r.action@ == "/admin/servers/"@ + sid_enc@ + "/reserved-ports"@,
        r.prefill@ == crate::text::join_text(port_texts(reserved@), ","@),
        r.listed@ == crate::text::join_text(port_texts(reserved@), ", "@),
{
    let mut texts: Vec<String> = Vec::new();
    let mut i: usize = 0;
    while i < reserved.len()
        invariant
            i <= reserved.len(),
            texts@.len() == i,
            forall|j: int|
                0 <= j < i ==> (#[trigger] texts@[j])@ == crate::text::dec_text(
                    reserved@[j] as nat,
                ),
        decreases reserved.len() - i,
    {
        texts.push(dec(reserved[i] as u64));
        i = i + 1;
    }
    assert(crate::text::texts(texts@) =~= port_texts(reserved@));
    ReservedPorts {
        action: cat3("/admin/servers/", sid_enc, "/reserved-ports"),
        prefill: join(&texts, ","),
        listed: join(&texts, ", "),
    }
}

/// The deploy key form.
pub struct PushDeployKey {
    pub action: String,
    /// A reference key can be used without a password.
    pub reference_ok: bool,
    /// Hint in the password field.
    pub placeholder: &'static str,
    /// Target of the connection.
    pub target: String,
}

/// The deploy key form of a server; `reference_exists` says whether the
/// reference key, if one is configured, is there.
pub fn server_detail_push_deploy_key_section(
    sid_enc: &str,
    reference_key: Option<&str>,
    reference_exists: bool,
    ssh_user: &str,
    address: &str,
    ssh_port: u16,
    lang: Locale,
) -> (r: PushDeployKey)
    ensures
        r.action@ == "/admin/servers/"@ + sid_enc@ + "/push-deploy-key"@,
        r.reference_ok == (reference_key is Some && reference_exists),
        r.placeholder == (if r.reference_ok {
            crate::locale::in_language(lang, "blank = reference key", "пусто = reference-key")
        } else {
            crate::locale::in_language(lang, "never stored", "не сохраняется")
        }),
        r.target@ == ssh_user@ + "@"@ + address@ + ":"@ + crate::text::dec_text(ssh_port as nat),
{
    let reference_ok = reference_key.is_some() && reference_exists;
    let port = dec(ssh_port as u64);
    PushDeployKey {
        action: cat3("/admin/servers/", sid_enc, "/push-deploy-key"),
        reference_ok,
        placeholder: if reference_ok {
            tr(lang, "blank = reference key", "пусто = reference-key")
        } else {
            tr(lang, "never stored", "не сохраняется")
        },
        target: cat5(ssh_user, "@", address, ":", port.as_str()),
    }
}

/// The fingerprint form.
pub struct FingerprintForm {
    pub action: String,
    /// The pinned fingerprint.
    pub current: Option<String>,
    /// Host and port that are scanned.
    pub target: String,
}

/// The fingerprint form of a server.
pub fn server_detail_fingerprint_section(
    sid_enc: &str,
    current: Option<&str>,
    address: &str,
    ssh_port: u16,
) -> (r: FingerprintForm)
    ensures
        r.action@ == "/admin/servers/"@ + sid_enc@ + "/set-fingerprint"@,
        crate::text::opt_string(r.current) == crate::text::opt_text(current),
        r.target@ == address@ + ":"@ + crate::text::dec_text(ssh_port as nat),
{
    let port = dec(ssh_port as u64);
    FingerprintForm {
        action: cat3("/admin/servers/", sid_enc, "/set-fingerprint"),
        current: match current {
            Some(f) => Some(f.to_owned()),
            None => None,
        },
        target: cat3(address, ":", port.as_str()),
    }
}

} // verus!
