//! Laws of the configuration forms.
use crate::locale::Locale;
use crate::server_config::{
    BillingCycle, BillingSection, KernelEntry, KernelRow, Secret, ServerBilling,
    ServerChoice, Switch,
};
use vstd::prelude::*;

verus! {

/// Every kernel has one row, the lower rank first and the id between equals. Its
/// switch does the opposite of its state, on just that kernel and server.
pub proof fn kernels_by_rank(
    rows: Seq<KernelRow>,
    ks: Seq<KernelEntry>,
    enabled: Seq<Seq<char>>,
    server: Seq<char>,
    sid_enc: Seq<char>,
    lang: Locale,
    i: int,
    j: int,
    x: usize,
)
    requires
        crate::server_config::kernel_rows(rows, ks, enabled, server, sid_enc, lang),
        0 <= i < rows.len(),
    ensures
        rows.len() == ks.len(),
        rows[i].at < ks.len(),
        x < ks.len() ==> exists|k: int| 0 <= k < rows.len() && (#[trigger] rows[k]).at == x,
        i < j < rows.len() ==> {
            let a = ks[rows[i].at as int];
            let b = ks[rows[j].at as int];
            &&& rows[i].at != rows[j].at
            &&& a.priority <= b.priority
            &&& a.priority == b.priority ==> !crate::order::lex_lt(b.id@, a.id@)
        },
        ({
            let k = ks[rows[i].at as int];
            &&& rows[i].on <==> enabled.contains(k.id@)
            &&& rows[i].supported@ == crate::text::join_text(
                crate::text::texts(k.supports@),
                ", "@,
            )
            &&& enabled.contains(k.id@) ==> rows[i].action@ == "/admin/servers/"@ + sid_enc
                + "/kernels/"@ + k.path@ + "/disable"@
            &&& !enabled.contains(k.id@) ==> rows[i].action@ == "/admin/servers/"@ + sid_enc
                + "/kernels/"@ + k.path@ + "/enable"@
            &&& enabled.contains(k.id@) && lang is En ==> rows[i].title@ == "Remove "@ + k.id@
                + " from "@ + server + ".kernels. Takes effect on next deploy."@
            &&& !enabled.contains(k.id@) && lang is En ==> rows[i].title@ == "Add "@ + k.id@
                + " to "@ + server + ".kernels. Takes effect on next deploy."@
            &&& enabled.contains(k.id@) && lang is Ru ==> rows[i].title@ == "Убрать "@ + k.id@
                + " из "@ + server + ".kernels. Применится при следующем деплое."@
            &&& !enabled.contains(k.id@) && lang is Ru ==> rows[i].title@ == "Добавить "@ + k.id@
                + " в "@ + server + ".kernels. Применится при следующем деплое."@
        }),
{
    let order = rows.map_values(|r: KernelRow| r.at);
    assert(order[i] == rows[i].at);
    assert(crate::server_config::kernel_row(
        rows[i],
        rows[i].at as int,
        ks,
        enabled,
        server,
        sid_enc,
        lang,
    ));
    if i < j < rows.len() {
        assert(order[j] == rows[j].at);
        assert(crate::order::listed_before(
            crate::server_config::kernel_before(ks),
            order[i] as int,
            order[j] as int,
        ));
        let a = ks[rows[i].at as int].id@;
        let b = ks[rows[j].at as int].id@;
        if crate::order::lex_lt(a, b) {
            crate::order::lex_lt_asymmetric(a, b);
        }
    }
    if x < ks.len() {
        assert(order.contains(x));
        let k = order.index_of(x);
        assert(rows[k].at == x);
    }
}

proof fn lemma_others(candidates: Seq<String>, server: Seq<char>, n: int)
    requires
        0 <= n <= candidates.len(),
    ensures
        crate::server_config::other_servers(candidates, server, n) == candidates.take(n).filter(
            |c: String| c@ != server,
        ).map_values(|c: String| c@),
    decreases n,
{
    reveal(Seq::filter);
    if n > 0 {
        lemma_others(candidates, server, n - 1);
        assert(candidates.take(n).drop_last() =~= candidates.take(n - 1));
        assert(candidates.take(n).last() == candidates[n - 1]);
    }
}

/// The first choice is no server; behind it come all candidates but the server
/// itself, in their order. Selected is exactly the current one, or no server
/// where there is none.
pub proof fn choices_are_the_other_servers(
    r: Seq<ServerChoice>,
    server: Seq<char>,
    current: Option<Seq<char>>,
    candidates: Seq<String>,
    i: int,
)
    requires
        crate::server_config::server_choices(r, server, current, candidates),
    ensures
        r.len() >= 1,
        r[0].value@.len() == 0,
        r[0].selected <==> current is None,
        r.skip(1).map_values(|c: ServerChoice| c.value@) == candidates.filter(
            |c: String| c@ != server,
        ).map_values(|c: String| c@),
        1 <= i < r.len() ==> (r[i].selected <==> current == Some(r[i].value@)),
{
    let n = candidates.len() as int;
    let others = crate::server_config::other_servers(candidates, server, n);
    lemma_others(candidates, server, n);
    assert(candidates.take(n) =~= candidates);
    let left = r.skip(1).map_values(|c: ServerChoice| c.value@);
    assert(left =~= others) by {
        assert forall|k: int| 0 <= k < left.len() implies left[k] == others[k] by {
            assert(r[k + 1].value@ == others[k]);
        }
    }
    if 1 <= i < r.len() {
        assert(r[i].value@ == others[i - 1]);
    }
}

/// Entry `e` is the first for the key.
pub open spec fn first_secret(secrets: Seq<Secret>, key: Seq<char>, e: int) -> bool {
    &&& 0 <= e < secrets.len()
    &&& secrets[e].key@ == key
    &&& forall|j: int| 0 <= j < e ==> (#[trigger] secrets[j]).key@ != key
}

/// A secret has the value of the first entry for its key; a key without an
/// entry reads as empty.
pub proof fn first_secret_counts(secrets: Seq<Secret>, key: Seq<char>, e: int)
    ensures
        first_secret(secrets, key, e) ==> crate::server_config::secret_of(secrets, key) == Some(
            secrets[e].value@,
        ) && crate::server_config::secret_or_empty(secrets, key) == secrets[e].value@,
        (forall|j: int| 0 <= j < secrets.len() ==> (#[trigger] secrets[j]).key@ != key)
            ==> crate::server_config::secret_of(secrets, key) is None
            && crate::server_config::secret_or_empty(secrets, key).len() == 0,
    decreases secrets.len(),
{
    if secrets.len() > 0 && secrets[0].key@ != key {
        let rest = secrets.skip(1);
        first_secret_counts(rest, key, e - 1);
        if first_secret(secrets, key, e) {
            assert forall|j: int| 0 <= j < e - 1 implies (#[trigger] rest[j]).key@ != key by {
                assert(secrets[j + 1].key@ != key);
            }
        }
        if forall|j: int| 0 <= j < secrets.len() ==> (#[trigger] secrets[j]).key@ != key {
            assert forall|j: int| 0 <= j < rest.len() implies (#[trigger] rest[j]).key@ != key by {
                assert(secrets[j + 1].key@ != key);
            }
        }
    } else if secrets.len() > 0 && first_secret(secrets, key, e) && e > 0 {
        assert(secrets[0].key@ != key);
    }
}

/// An amount is printed with two decimals and, below zero, with a minus sign.
pub proof fn amounts_with_two_decimals(whole: nat, cents: nat)
    requires
        cents < 100,
    ensures
        crate::server_config::amount_text((100 * whole + cents) as int) == crate::text::dec_text(
            whole,
        ) + "."@ + crate::text::dec2_text(cents),
        100 * whole + cents > 0 ==> crate::server_config::amount_text(-(100 * whole + cents)) == "-"@
            + (crate::text::dec_text(whole) + "."@ + crate::text::dec2_text(cents)),
{
    let n = 100 * whole + cents;
    assert(n / 100 == whole && n % 100 == cents);
}

/// Cycles in words.
pub proof fn cycles_in_words(c: BillingCycle, lang: Locale)
    ensures
        c is Monthly && lang is En ==> crate::server_config::cycle_text(c, lang) == "month",
        c is Quarterly && lang is En ==> crate::server_config::cycle_text(c, lang) == "quarter",
        c is SemiAnnual && lang is En ==> crate::server_config::cycle_text(c, lang) == "6 months",
        c is Annual && lang is En ==> crate::server_config::cycle_text(c, lang) == "year",
        c is Monthly && lang is Ru ==> crate::server_config::cycle_text(c, lang) == "месяц",
        c is Quarterly && lang is Ru ==> crate::server_config::cycle_text(c, lang)
            == "квартал (3 мес)",
        c is SemiAnnual && lang is Ru ==> crate::server_config::cycle_text(c, lang)
            == "полгода (6 мес)",
        c is Annual && lang is Ru ==> crate::server_config::cycle_text(c, lang) == "год",
{
}

/// The form shows the terms that are stored, and a new one starts empty with
/// monthly payment in euros. What it posts belongs to its server.
pub proof fn billing_shows_the_stored_terms(
    v: BillingSection,
    current: Option<ServerBilling>,
    sid_enc: Seq<char>,
    lang: Locale,
)
    requires
        crate::server_config::billing_section(v, current, sid_enc, lang),
    ensures
        v.action@ == "/admin/servers/"@ + sid_enc + "/billing"@,
        v.return_to@ == "/admin/servers/"@ + sid_enc + "/setup"@,
        v.summary is Some <==> current is Some,
        current is None ==> v.due_date@.len() == 0 && v.amount@.len() == 0 && v.portal@.len() == 0
            && v.notes@.len() == 0 && v.currency@ == "EUR"@ && v.cycle == BillingCycle::Monthly
            && !v.auto_renew,
        current matches Some(b) ==> {
            &&& v.due_date@ == b.due_date@
            &&& v.cycle == b.billing_cycle
            &&& v.amount@ == crate::server_config::amount_text(b.amount_cents as int)
            &&& v.currency@ == b.currency@
            &&& v.auto_renew == b.auto_renew
            &&& b.billing_url is Some ==> v.portal@ == b.billing_url->0@
            &&& b.billing_url is None ==> v.portal@.len() == 0
            &&& b.notes is Some ==> v.notes@ == b.notes->0@
            &&& b.notes is None ==> v.notes@.len() == 0
        },
        current matches Some(b) ==> (v.summary matches Some(s) && {
            &&& s.price@ == v.amount@ + " "@ + b.currency@
            &&& s.cycle == crate::server_config::cycle_text(b.billing_cycle, lang)
            &&& s.due_date@ == b.due_date@
            &&& s.auto_renew == b.auto_renew
            &&& s.portal is Some <==> b.billing_url is Some
            &&& s.portal is Some ==> s.portal->0@ == b.billing_url->0@
            &&& s.notes is Some <==> b.notes is Some && b.notes->0@.len() > 0
            &&& s.notes is Some ==> s.notes->0@ == b.notes->0@
            &&& s.advance@ == "/admin/servers/"@ + sid_enc + "/billing/advance"@
        }),
{
}

/// A switch posts to its own form, and stands out exactly while it is off.
pub proof fn switch_stands_out_while_off(s: Switch, on: bool, sid_enc: Seq<char>, path: Seq<char>)
    requires
        crate::server_config::switch_of(s, on, sid_enc, path),
    ensures
        s.action@ == "/admin/servers/"@ + sid_enc + path,
        on ==> s.background == "transparent" && s.colour == "var(--ink)" && s.value == "false",
        !on ==> s.background == "var(--ink)" && s.colour == "var(--paper)" && s.value == "true",
{
}

/// Ports are printed one by one, in their order.
pub proof fn ports_are_printed_in_order(ports: Seq<u16>, i: int)
    requires
        0 <= i < ports.len(),
    ensures
        crate::server_config::port_texts(ports).len() == ports.len(),
        crate::server_config::port_texts(ports)[i] == crate::text::dec_text(ports[i] as nat),
{
}

} // verus!
