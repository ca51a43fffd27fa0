//! Laws of forms and sections, over what the functions return.
use crate::locale::Locale;
use crate::protocols::{
    grant_protocol_disable, grant_protocol_enable, server_detail_protocols_section,
    stored_override, user_detail_per_protocol_grid, GridEntry, GridPlace, GridRow, OverrideOutcome,
    OverrideReply, OverrideRequest, ProtocolEntry, ProtocolHost, ProtocolRow,
};
use crate::server_config::{
    server_detail_auto_suppress_section, server_detail_billing_section,
    server_detail_client_detour_section, server_detail_display_name_section,
    server_detail_fingerprint_section, server_detail_kernels_section,
    server_detail_naive_config_section, server_detail_push_deploy_key_section,
    server_detail_reality_config_section, server_detail_reserved_ports_section,
    server_detail_routing_policy_section, server_detail_udp_pair_section,
    server_detail_vlessws_config_section, AutoSuppress, BillingSection, ClientDetour, DisplayName,
    FingerprintForm, KernelEntry, KernelRow, NaiveConfig, PushDeployKey, RealityConfig,
    ReservedPorts, RoutingPolicy, Secret, ServerBilling, ServerRole, SuppressState, Switch,
    VlessWsConfig,
};
use vstd::prelude::*;

verus! {

/// Every protocol of the registry has its row, in order, and every entry of the
/// grid one.
pub proof fn rows_of_protocols(
    protocols: &Vec<ProtocolEntry>,
    host: &ProtocolHost,
    lang: Locale,
    r: Vec<ProtocolRow>,
    entries: &Vec<GridEntry>,
    place: &GridPlace,
    g: Vec<GridRow>,
    i: int,
)
    requires
        call_ensures(server_detail_protocols_section, (protocols, host, lang), r),
        call_ensures(user_detail_per_protocol_grid, (entries, place, lang), g),
    ensures
        r@.len() == protocols@.len(),
        0 <= i < r@.len() ==> crate::protocols::protocol_row(r@[i], protocols@[i], *host, lang),
        crate::protocols::grid_rows(g@, entries@, *place, lang),
        g@.len() == entries@.len(),
{
    assert(g@.map_values(|r: GridRow| r.at).len() == g@.len());
}

/// Disabling stores a block, enabling lifts it, and both are answered by what
/// came of it.
pub proof fn blocks_are_stored_and_lifted(
    request: &OverrideRequest,
    b: bool,
    o: &OverrideOutcome,
    user: &str,
    d: OverrideReply,
    e: OverrideReply,
)
    requires
        call_ensures(stored_override, (request,), b),
        call_ensures(grant_protocol_disable, (o, user), d),
        call_ensures(grant_protocol_enable, (o, user), e),
    ensures
        b <==> *request is Disable,
        !b <==> *request is Enable,
        *o is Saved <==> d is Redirect,
        *o is Saved <==> e is Redirect,
        *o is Invalid <==> d is BadRequest,
        *o is Invalid <==> e is BadRequest,
        crate::protocols::override_reply(d, *o, user@),
        crate::protocols::override_reply(e, *o, user@),
{
}

/// The kernels of the registry with their switches, by rank.
pub proof fn rows_of_kernels(
    kernels: &Vec<KernelEntry>,
    enabled: &Vec<String>,
    server: &str,
    sid_enc: &str,
    lang: Locale,
    r: Vec<KernelRow>,
)
    requires
        call_ensures(server_detail_kernels_section, (kernels, enabled, server, sid_enc, lang), r),
    ensures
        crate::server_config::kernel_rows(
            r@,
            kernels@,
            crate::text::texts(enabled@),
            server@,
            sid_enc@,
            lang,
        ),
{
}

/// The routing form marks the role, offers the other servers, and warns exactly
/// of an invalid route; the client entry form offers the same servers.
pub proof fn routing_forms(
    server: &str,
    sid_enc: &str,
    role: ServerRole,
    jump: Option<&str>,
    candidates: &Vec<String>,
    error: Option<&str>,
    r: RoutingPolicy,
    c: ClientDetour,
)
    requires
        call_ensures(
            server_detail_routing_policy_section,
            (server, sid_enc, role, jump, candidates, error),
            r,
        ),
        call_ensures(server_detail_client_detour_section, (server, sid_enc, jump, candidates), c),
    ensures
        r.action@ == "/admin/servers/"@ + sid_enc@ + "/routing-policy"@,
        r.vpn_exit <==> role == ServerRole::VpnExit,
        r.workload_only <==> role == ServerRole::WorkloadOnly,
        crate::server_config::server_choices(
            r.jump_choices@,
            server@,
            crate::text::opt_text(jump),
            candidates@,
        ),
        r.warning is Some <==> error is Some,
        error matches Some(e) ==> r.warning->0@ == "management route invalid: "@ + e@,
        c.action@ == "/admin/servers/"@ + sid_enc@ + "/client-detour"@,
        crate::server_config::server_choices(
            c.choices@,
            server@,
            crate::text::opt_text(jump),
            candidates@,
        ),
{
}

/// The form of a protocol is there exactly where the protocol is enabled, and is
/// filled with the secrets of its own keys.
pub proof fn protocol_forms(
    enabled: &Vec<String>,
    secrets: &Vec<Secret>,
    sid_enc: &str,
    lang: Locale,
    n: Option<NaiveConfig>,
    w: Option<VlessWsConfig>,
    y: Option<RealityConfig>,
)
    requires
        call_ensures(server_detail_naive_config_section, (enabled, secrets, sid_enc), n),
        call_ensures(server_detail_vlessws_config_section, (enabled, secrets, sid_enc, lang), w),
        call_ensures(server_detail_reality_config_section, (enabled, secrets, sid_enc), y),
    ensures
        n is Some <==> exists|i: int| 0 <= i < enabled@.len() && (#[trigger] enabled@[i])@ == "naive"@,
        w is Some <==> exists|i: int|
            0 <= i < enabled@.len() && (#[trigger] enabled@[i])@ == "vless-ws"@,
        y is Some <==> exists|i: int|
            0 <= i < enabled@.len() && (#[trigger] enabled@[i])@ == "vless+reality"@,
        n matches Some(f) ==> {
            &&& f.action@ == "/admin/servers/"@ + sid_enc@ + "/naive-config"@
            &&& f.domain@ == crate::server_config::secret_or_empty(secrets@, "naive.domain"@)
            &&& f.email@ == crate::server_config::secret_or_empty(secrets@, "naive.acme_email"@)
        },
        w matches Some(f) ==> {
            &&& f.action@ == "/admin/servers/"@ + sid_enc@ + "/vlessws-config"@
            &&& f.domain@ == crate::server_config::secret_or_empty(secrets@, "vlessws.domain"@)
            &&& f.email@ == crate::server_config::secret_or_empty(secrets@, "vlessws.acme_email"@)
            &&& f.port@ == crate::server_config::secret_or_empty(secrets@, "vlessws.listen_port"@)
            &&& f.path_minted <==> crate::server_config::secret_of(secrets@, "vlessws.path"@)
                is Some
            &&& lang is En && f.path_minted ==> f.path_note@ == " The path is set."@
            &&& lang is En && !f.path_minted ==> f.path_note@
                == " The path is not minted yet (deploy to generate it)."@
        },
        y matches Some(f) ==> {
            &&& f.action@ == "/admin/servers/"@ + sid_enc@ + "/reality-config"@
            &&& f.port@ == crate::server_config::secret_or_empty(secrets@, "vless.listen_port"@)
        },
{
    crate::laws::texts::holds_text(enabled@, "naive"@);
    crate::laws::texts::holds_text(enabled@, "vless-ws"@);
    crate::laws::texts::holds_text(enabled@, "vless+reality"@);
}

/// The name form shows the stored name, and says where there is none; the
/// billing section shows the stored terms.
pub proof fn name_and_billing_forms(
    sid_enc: &str,
    current: Option<&str>,
    effective: &str,
    r: DisplayName,
    terms: &Option<ServerBilling>,
    lang: Locale,
    b: BillingSection,
)
    requires
        call_ensures(server_detail_display_name_section, (sid_enc, current, effective), r),
        call_ensures(server_detail_billing_section, (sid_enc, terms, lang), b),
    ensures
        r.action@ == "/admin/servers/"@ + sid_enc@ + "/display-name"@,
        r.label@ == effective@ + " VLESS ~<user>"@,
        r.auto <==> current is None,
        current matches Some(c) ==> r.value@ == c@,
        current is None ==> r.value@.len() == 0,
        crate::server_config::billing_section(b, *terms, sid_enc@, lang),
{
}

/// A server that is hidden says since when; one that is not is armed exactly
/// where its owner opted in. Both switches post the opposite of their state.
pub proof fn suppression_and_pairing(
    sid_enc: &str,
    opt_in: bool,
    since: Option<&str>,
    r: AutoSuppress,
    enabled: bool,
    s: Switch,
)
    requires
        call_ensures(server_detail_auto_suppress_section, (sid_enc, opt_in, since), r),
        call_ensures(server_detail_udp_pair_section, (sid_enc, enabled), s),
    ensures
        r.state is Suppressed <==> since is Some,
        r.state matches SuppressState::Suppressed(t) ==> since is Some && t@ == since->0@,
        r.state is Armed <==> since is None && opt_in,
        r.state is Off <==> since is None && !opt_in,
        crate::server_config::switch_of(r.switch, opt_in, sid_enc@, "/auto-suppress"@),
        crate::server_config::switch_of(s, enabled, sid_enc@, "/udp-pair"@),
{
}

/// The ports, the key and the fingerprint of a server, each with its own form.
pub proof fn access_forms(
    sid_enc: &str,
    reserved: &Vec<u16>,
    p: ReservedPorts,
    key: Option<&str>,
    there: bool,
    user: &str,
    address: &str,
    port: u16,
    lang: Locale,
    k: PushDeployKey,
    pinned: Option<&str>,
    f: FingerprintForm,
)
    requires
        call_ensures(server_detail_reserved_ports_section, (sid_enc, reserved), p),
        call_ensures(
            server_detail_push_deploy_key_section,
            (sid_enc, key, there, user, address, port, lang),
            k,
        ),
        call_ensures(server_detail_fingerprint_section, (sid_enc, pinned, address, port), f),
    ensures
        p.action@ == "/admin/servers/"@ + sid_enc@ + "/reserved-ports"@,
        p.prefill@ == crate::text::join_text(crate::server_config::port_texts(reserved@), ","@),
        p.listed@ == crate::text::join_text(crate::server_config::port_texts(reserved@), ", "@),
        k.action@ == "/admin/servers/"@ + sid_enc@ + "/push-deploy-key"@,
        k.reference_ok <==> key is Some && there,
        k.reference_ok && lang is En ==> k.placeholder@ == "blank = reference key"@,
        !k.reference_ok && lang is En ==> k.placeholder@ == "never stored"@,
        k.target@ == user@ + "@"@ + address@ + ":"@ + crate::text::dec_text(port as nat),
        f.action@ == "/admin/servers/"@ + sid_enc@ + "/set-fingerprint"@,
        f.current is Some <==> pinned is Some,
        pinned matches Some(t) ==> f.current->0@ == t@,
        f.target@ == address@ + ":"@ + crate::text::dec_text(port as nat),
{
}

} // verus!
