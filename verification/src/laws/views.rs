//! The views show what the values hold: every field under its own name.

use crate::config::Config;
use crate::controllers::dns_endpoint_ctrl::{DNSEndpointSpec, DnsPlan, DnsPlanView, Endpoint};
use crate::controllers::port_forward::{
    managed_views, manifest_views, ManagedMapping, ManagedPlan, ManagedPlanView, Manifest, Owner,
    OwnerReference,
};
use crate::controllers::port_mapping_ctrl::{AddMapping, ApplyPlan, ApplyPlanView};
use crate::crds::gateway_status::GatewayStatusStatus;
use crate::crds::port_mapping::{Condition, PortMappingSpec, PortMappingStatus};
use crate::entries::{entry_views, Entry};
use crate::proxy::Proxy;
use crate::text::{opt, views};
use crate::upnp::discovery::{token_views, GatewayServices, XmlToken, XmlTokenView};
use crate::upnp::eventing::{EventingState, GenaRequest};
use crate::upnp::port_mapping::{PortMappingEntry, SoapRequest};
use vstd::prelude::*;

verus! {

/// Optional and listed strings are seen one for one.
pub proof fn law_strings(s: Option<String>, list: Seq<String>, i: int)
    requires
        0 <= i < list.len(),
    ensures
        s matches Some(text) ==> opt(s) == Some(text@),
        s is None ==> opt(s) is None,
        views(list).len() == list.len(),
        views(list)[i] == list[i]@,
{
}

/// Lists are seen one for one.
pub proof fn law_list_views(
    entries: Seq<Entry>,
    listed: Seq<ManagedMapping>,
    manifests: Seq<Manifest>,
    tokens: Seq<XmlToken>,
    i: int,
)
    ensures
        entry_views(entries).len() == entries.len(),
        0 <= i < entries.len() ==> entry_views(entries)[i] == entries[i]@,
        managed_views(listed).len() == listed.len(),
        0 <= i < listed.len() ==> managed_views(listed)[i] == listed[i]@,
        manifest_views(manifests).len() == manifests.len(),
        0 <= i < manifests.len() ==> manifest_views(manifests)[i] == manifests[i]@,
        token_views(tokens).len() == tokens.len(),
        0 <= i < tokens.len() ==> token_views(tokens)[i] == tokens[i]@,
{
}

/// The resource for a mapping, its status, and a request for it.
pub proof fn law_mapping_views(
    spec: PortMappingSpec,
    status: PortMappingStatus,
    condition: Condition,
    add: AddMapping,
)
    ensures
        spec@.external_port == spec.external_port,
        spec@.internal_host == spec.internal_host@,
        spec@.internal_port == spec.internal_port,
        spec@.protocol == spec.protocol,
        spec@.description == opt(spec.description),
        status@.active == status.active,
        status@.external_ip == opt(status.external_ip),
        status@.lease_expiry == status.lease_expiry,
        status@.last_renewal == status.last_renewal,
        status@.conditions.len() == status.conditions@.len(),
        forall|i: int|
            0 <= i < status.conditions@.len() ==> #[trigger] status@.conditions[i]
                == status.conditions@[i]@,
        condition@.type_ == condition.type_@,
        condition@.status == condition.status@,
        condition@.reason == condition.reason@,
        condition@.message == opt(condition.message),
        condition@.last_transition_time == condition.last_transition_time,
        add@.external_port == add.external_port,
        add@.internal_host == add.internal_host@,
        add@.internal_port == add.internal_port,
        add@.protocol == add.protocol@,
        add@.description == add.description@,
        add@.lease_secs == add.lease_secs,
{
}

/// Managed mappings and their owners.
pub proof fn law_managed_views(
    manifest: Manifest,
    reference: OwnerReference,
    owner: Owner,
    mapping: ManagedMapping,
    entry: Entry,
)
    ensures
        manifest@.name == manifest.name@,
        manifest@.namespace == manifest.namespace@,
        manifest@.managed_by == manifest.managed_by@,
        manifest@.owner == manifest.owner@,
        manifest@.spec == manifest.spec@,
        reference@.api_version == reference.api_version@,
        reference@.kind == reference.kind@,
        reference@.name == reference.name@,
        reference@.uid == reference.uid@,
        reference@.controller == reference.controller,
        reference@.block_owner_deletion == reference.block_owner_deletion,
        owner@.api_version == owner.api_version@,
        owner@.kind == owner.kind@,
        owner@.namespace == owner.namespace@,
        owner@.name == owner.name@,
        owner@.uid == owner.uid@,
        mapping@.name == mapping.name@,
        mapping@.owner_uids == views(mapping.owner_uids@),
        entry@.key == entry.key@,
        entry@.value == entry.value@,
{
}

/// Plans.
pub proof fn law_plan_views(apply: ApplyPlan, managed: ManagedPlan, dns: DnsPlan)
    ensures
        match apply {
            ApplyPlan::Leave => apply@ == ApplyPlanView::Leave,
            ApplyPlan::Wait(secs) => apply@ == ApplyPlanView::Wait(secs),
            ApplyPlan::Add(add) => apply@ == ApplyPlanView::Add(add@),
        },
        match managed {
            ManagedPlan::Leave => managed@ == ManagedPlanView::Leave,
            ManagedPlan::Retry(secs) => managed@ == ManagedPlanView::Retry(secs),
            ManagedPlan::Remove(names) => managed@ == ManagedPlanView::Remove(views(names@)),
            ManagedPlan::Apply { manifests, stale } => managed@ matches ManagedPlanView::Apply {
                manifests: m,
                stale: s,
            } && s == views(stale@) && m.len() == manifests@.len() && forall|i: int|
                0 <= i < m.len() ==> #[trigger] m[i] == manifests@[i]@,
        },
        match dns {
            DnsPlan::Leave => dns@ == DnsPlanView::Leave,
            DnsPlan::Requeue(secs) => dns@ == DnsPlanView::Requeue(secs),
            DnsPlan::Patch(spec) => dns@ == DnsPlanView::Patch(spec@),
        },
{
}

/// Records, the singleton and a running proxy.
pub proof fn law_record_views(
    spec: DNSEndpointSpec,
    endpoint: Endpoint,
    status: GatewayStatusStatus,
    proxy: Proxy,
)
    ensures
        spec@.len() == spec.endpoints@.len(),
        forall|i: int|
            0 <= i < spec.endpoints@.len() ==> #[trigger] spec@[i] == spec.endpoints@[i]@,
        endpoint@.dns_name == endpoint.dns_name@,
        endpoint@.record_type == endpoint.record_type@,
        endpoint@.record_ttl == endpoint.record_ttl,
        endpoint@.targets == views(endpoint.targets@),
        status@.external_ip == opt(status.external_ip),
        status@.gateway_url == opt(status.gateway_url),
        status@.subscription_id == opt(status.subscription_id),
        status@.subscription_expiry == status.subscription_expiry,
        status@.last_seen == status.last_seen,
        status@.lan_ip == opt(status.lan_ip),
        status@.ready == status.ready,
        proxy@.local_port == proxy.local_port,
        proxy@.target == proxy.target@,
        proxy@.protocol == proxy.protocol,
{
}

/// What goes to the gateway and comes from it.
pub proof fn law_gateway_views(
    services: GatewayServices,
    request: SoapRequest,
    gena: GenaRequest,
    entry: PortMappingEntry,
    state: EventingState,
    token: XmlToken,
)
    ensures
        services@.root_url == services.root_url@,
        services@.wan_ip_control_url == opt(services.wan_ip_control_url),
        services@.wan_ip_event_url == opt(services.wan_ip_event_url),
        services@.wan_ppp_control_url == opt(services.wan_ppp_control_url),
        services@.wan_ppp_event_url == opt(services.wan_ppp_event_url),
        request@.url == request.url@,
        request@.content_type == request.content_type@,
        request@.soap_action == request.soap_action@,
        request@.body == request.body@,
        gena@.method == gena.method@,
        gena@.url == gena.url@,
        gena@.headers.len() == gena.headers@.len(),
        forall|i: int|
            0 <= i < gena.headers@.len() ==> #[trigger] gena@.headers[i] == (
                gena.headers@[i].0@,
                gena.headers@[i].1@,
            ),
        entry@.external_port == entry.external_port,
        entry@.protocol == entry.protocol@,
        entry@.internal_client == entry.internal_client@,
        entry@.internal_port == entry.internal_port,
        entry@.description == entry.description@,
        entry@.enabled == entry.enabled,
        entry@.lease_duration == entry.lease_duration,
        state@.last_notify == state.last_notify,
        state@.current_external_ip == opt(state.current_external_ip),
        state.subscription matches Some(s) ==> state@.subscription == Some((s.sid@, s.expiry)),
        state.subscription is None ==> state@.subscription is None,
        match token {
            XmlToken::Start(name) => token@ == XmlTokenView::Start(name@),
            XmlToken::Text(text) => token@ == XmlTokenView::Text(opt(text)),
            XmlToken::End(name) => token@ == XmlTokenView::End(name@),
            XmlToken::Other => token@ == XmlTokenView::Other,
            XmlToken::Malformed(what) => token@ == XmlTokenView::Malformed(what@),
            XmlToken::Eof => token@ == XmlTokenView::Eof,
        },
{
}

/// Settings.
pub proof fn law_config_view(cfg: Config)
    ensures
        cfg@.gateway_url == opt(cfg.gateway_url),
        cfg@.notify_port == cfg.notify_port,
        cfg@.metrics_port == cfg.metrics_port,
        cfg@.poll_interval_secs == cfg.poll_interval_secs,
        cfg@.poll_interval_fast_secs == cfg.poll_interval_fast_secs,
        cfg@.gena_enabled == cfg.gena_enabled,
        cfg@.log_level == cfg.log_level@,
        cfg@.leader_election_namespace == cfg.leader_election_namespace@,
        cfg@.pod_ip == opt(cfg.pod_ip),
        cfg@.lan_ip == opt(cfg.lan_ip),
{
}

} // verus!
