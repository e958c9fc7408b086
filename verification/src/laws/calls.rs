//! What calls of the library's functions do, stated of what goes in and what comes out.

use crate::controllers::dns_endpoint_ctrl::{self, DNSEndpointSpec, DnsPlan};
use crate::controllers::gateway_ctrl::{self, ensure_singleton, GatewayPlan, Lookup, Observed};
use crate::controllers::port_forward::{
    annotated, apply_port_mappings, container_table, law_owned_by, list_owned_port_mappings,
    managed_selector, managed_views, parse_k8s_protocol, parse_pod_annotation, parse_port_list,
    parse_service_annotation, pm_name_for_owner, pod_table, reconcile_pod, reconcile_service,
    service_table, ContainerPort, ManagedMapping, ManagedPlan, ManagedPlanView, Owner, Pod,
    Service, ServicePort,
};
use crate::controllers::port_mapping_ctrl::{
    after_add, after_cleanup, reconcile_apply, reconcile_cleanup, ActiveMappings, AddOutcome,
    ApplyPlan, CleanupOutcome, DeleteMapping, Established, ReconcileError,
};
use crate::crds::gateway_status::GatewayStatusStatus;
use crate::crds::port_mapping::{PortMappingSpec, PortMappingStatus, Protocol};
use crate::entries::{entry_views, lookup, Entry};
use crate::laws::forwarding::{
    carries_out, is_owned, is_written_for, law_pod, law_service,
    law_true_forwards_container_ports, law_true_forwards_service_ports,
    law_wanted_ports_are_written, named_protocol, text_or,
};
use crate::laws::leases::{
    holds_for, is_mapping_of, law_added_or_waited_for, law_established_status,
    law_looked_at_in_time,
};
use crate::laws::records::{
    asks_for_management, is_outdated, law_outdated_records_are_patched,
    law_patch_points_to_the_address, law_published_status_is_current, says_what_is_known,
};
use crate::text::{decimal, opt, views};
use crate::time::{Timestamp, MAX_SECS};
use crate::upnp::port_mapping::{error_message, UpnpError};
use vstd::prelude::*;
use vstd::string::*;

verus! {

// ---------------------------------------------------------------------------
// Mappings for Services and Pods
// ---------------------------------------------------------------------------

/// For every wanted port one mapping is written, in order: from its external to its own
/// port, with its protocol.
pub proof fn law_written_mappings(
    owner: Owner,
    ip: &str,
    desired: Vec<(u16, u16, Protocol)>,
    owned: Vec<String>,
    plan: ManagedPlan,
)
    requires
        call_ensures(apply_port_mappings, (&owner, ip, &desired, &owned), plan),
        owner.api_version@ == "v1"@,
    ensures
        plan matches ManagedPlan::Apply { manifests, .. } && manifests@.len() == desired@.len()
            && forall|i: int|
            0 <= i < desired@.len() ==> {
                let m = #[trigger] manifests@[i];
                &&& m.spec.external_port == desired@[i].0
                &&& m.spec.internal_port == desired@[i].1
                &&& m.spec.protocol == desired@[i].2
                &&& m.spec.internal_host@ == ip@
                &&& is_written_for(
                    m@,
                    desired@[i],
                    owner.kind@,
                    owner.namespace@,
                    owner.name@,
                    owner.uid@,
                    ip@,
                )
            },
{
    law_wanted_ports_are_written(owner@, ip@, desired@, views(owned@));
    if let ManagedPlan::Apply { manifests, .. } = plan {
        assert(plan@->manifests.len() == manifests@.len());
        assert forall|i: int| 0 <= i < desired@.len() implies plan@->manifests[i]
            == (#[trigger] manifests@[i])@ by {}
    }
}

/// `true` forwards every port of a Service under its own number and protocol.
pub proof fn law_true_service_annotation(
    ports: &[ServicePort],
    result: Vec<(u16, u16, Protocol)>,
)
    requires
        call_ensures(parse_service_annotation, ("true", ports), result),
    ensures
        result@.len() == ports@.len(),
        forall|i: int|
            0 <= i < ports@.len() ==> (#[trigger] result@[i]).0 as int == ports@[i].port as int
                % 65536 && result@[i].1 == result@[i].0 && result@[i].2 == named_protocol(
                ports@[i].protocol,
            ),
{
    law_true_forwards_service_ports(ports@);
}

/// `true` forwards every port of a Pod's containers under its own number and protocol.
pub proof fn law_true_pod_annotation(
    ports: &[ContainerPort],
    result: Vec<(u16, u16, Protocol)>,
)
    requires
        call_ensures(parse_pod_annotation, ("true", ports), result),
    ensures
        result@.len() == ports@.len(),
        forall|i: int|
            0 <= i < ports@.len() ==> (#[trigger] result@[i]).0 as int
                == ports@[i].container_port as int % 65536 && result@[i].1 == result@[i].0
                && result@[i].2 == named_protocol(ports@[i].protocol),
{
    law_true_forwards_container_ports(ports@);
}

/// A list asks for what its parts say: it is read part by part, as many as there are.
pub proof fn law_listed_ports(
    value: &str,
    table: Vec<(u16, Protocol)>,
    svc_ports: &[ServicePort],
    pod_ports: &[ContainerPort],
    listed: Vec<(u16, u16, Protocol)>,
    of_service: Vec<(u16, u16, Protocol)>,
    of_pod: Vec<(u16, u16, Protocol)>,
)
    requires
        call_ensures(parse_port_list, (value, &table), listed),
        call_ensures(parse_service_annotation, (value, svc_ports), of_service),
        call_ensures(parse_pod_annotation, (value, pod_ports), of_pod),
        value@ != "true"@,
    ensures
        listed@ == annotated(value@, table@),
        table@ == service_table(svc_ports@) ==> of_service@ == listed@,
        table@ == container_table(pod_ports@) ==> of_pod@ == listed@,
{
}

/// A Service without the annotation loses its mappings; an annotated one that is no load
/// balancer is left alone; one without an address is looked at again; and any other gets
/// the mappings that it asks for and loses the rest.
pub proof fn law_reconciled_service(
    svc: Service,
    listed: Vec<ManagedMapping>,
    shutting_down: bool,
    plan: ManagedPlan,
)
    requires
        call_ensures(reconcile_service, (&svc, &listed, shutting_down), plan),
    ensures
        ({
            let uid = text_or(svc.uid, ""@);
            match lookup(entry_views(svc.annotations@), "upnp-controller.io/port-forward"@) {
                None => plan matches ManagedPlan::Remove(names) && forall|name: Seq<char>|
                    #[trigger] views(names@).contains(name) <==> is_owned(
                        managed_views(listed@),
                        uid,
                        name,
                    ),
                Some(value) => {
                    let desired = annotated(value, service_table(svc.ports@));
                    if !(svc.type_ matches Some(type_) && type_@ == "LoadBalancer"@) {
                        plan is Leave
                    } else if svc.ingress@.len() == 0 || svc.ingress@[0] is None {
                        plan == ManagedPlan::Retry(5)
                    } else if desired.len() == 0 || shutting_down {
                        plan is Leave
                    } else {
                        carries_out(
                            plan@,
                            desired,
                            managed_views(listed@),
                            "Service"@,
                            text_or(svc.namespace, "default"@),
                            svc.name@,
                            uid,
                            svc.ingress@[0]->0@,
                        )
                    }
                },
            }
        }),
{
    law_service(svc, managed_views(listed@), shutting_down);
    match plan {
        ManagedPlan::Remove(names) => {
            let gone = plan@->Remove_0;
            assert(gone == views(names@));
            if lookup(entry_views(svc.annotations@), "upnp-controller.io/port-forward"@) is None {
                assert forall|name: Seq<char>| #[trigger]
                    views(names@).contains(name) <==> is_owned(
                        managed_views(listed@),
                        text_or(svc.uid, ""@),
                        name,
                    ) by {
                    assert(gone.contains(name) == views(names@).contains(name));
                }
            }
        },
        ManagedPlan::Retry(secs) => {
            assert(plan@ == ManagedPlanView::Retry(secs));
        },
        ManagedPlan::Apply { .. } => {},
        ManagedPlan::Leave => {},
    }
}

/// A Pod without the annotation loses its mappings; one without an address is looked at
/// again; and any other gets the mappings that it asks for and loses the rest.
pub proof fn law_reconciled_pod(
    pod: Pod,
    listed: Vec<ManagedMapping>,
    shutting_down: bool,
    plan: ManagedPlan,
)
    requires
        call_ensures(reconcile_pod, (&pod, &listed, shutting_down), plan),
    ensures
        ({
            let uid = text_or(pod.uid, ""@);
            match lookup(entry_views(pod.annotations@), "upnp-controller.io/port-forward"@) {
                None => plan matches ManagedPlan::Remove(names) && forall|name: Seq<char>|
                    #[trigger] views(names@).contains(name) <==> is_owned(
                        managed_views(listed@),
                        uid,
                        name,
                    ),
                Some(value) => {
                    let desired = annotated(value, pod_table(pod.containers@));
                    if pod.pod_ip is None {
                        plan == ManagedPlan::Retry(5)
                    } else if desired.len() == 0 || shutting_down {
                        plan is Leave
                    } else {
                        carries_out(
                            plan@,
                            desired,
                            managed_views(listed@),
                            "Pod"@,
                            text_or(pod.namespace, "default"@),
                            pod.name@,
                            uid,
                            pod.pod_ip->0@,
                        )
                    }
                },
            }
        }),
{
    law_pod(pod, managed_views(listed@), shutting_down);
    match plan {
        ManagedPlan::Remove(names) => {
            let gone = plan@->Remove_0;
            assert(gone == views(names@));
            if lookup(entry_views(pod.annotations@), "upnp-controller.io/port-forward"@) is None {
                assert forall|name: Seq<char>| #[trigger]
                    views(names@).contains(name) <==> is_owned(
                        managed_views(listed@),
                        text_or(pod.uid, ""@),
                        name,
                    ) by {
                    assert(gone.contains(name) == views(names@).contains(name));
                }
            }
        },
        ManagedPlan::Retry(secs) => {
            assert(plan@ == ManagedPlanView::Retry(secs));
        },
        ManagedPlan::Apply { .. } => {},
        ManagedPlan::Leave => {},
    }
}

/// The mappings of an owner are those that name it, and the managed ones are found by
/// their label.
pub proof fn law_owned_mappings(
    listed: Vec<ManagedMapping>,
    uid: &str,
    owned: Vec<String>,
    name: Seq<char>,
    selector: String,
)
    requires
        call_ensures(list_owned_port_mappings, (&listed, uid), owned),
        call_ensures(managed_selector, (), selector),
    ensures
        views(owned@).contains(name) <==> is_owned(managed_views(listed@), uid@, name),
        selector@ == "upnp-controller.io/managed-by"@ + "="@ + "service-controller"@,
{
    law_owned_by(managed_views(listed@), uid@, name);
}

/// A mapping is named after its owner's namespace and name, its external port and its
/// protocol.
pub proof fn law_name_of_owned(
    ns: &str,
    name: &str,
    external_port: u16,
    protocol: Protocol,
    r: String,
)
    requires
        call_ensures(pm_name_for_owner, (ns, name, external_port, &protocol), r),
    ensures
        r@ == ns@ + "-"@ + name@ + "-"@ + decimal(external_port as nat) + (match protocol {
            Protocol::Tcp => "-"@ + "tcp"@,
            Protocol::Udp => "-"@ + "udp"@,
        }),
{
}

/// Whatever is not called UDP is TCP.
pub proof fn law_named_protocols(name: Option<&str>, protocol: Protocol)
    requires
        call_ensures(parse_k8s_protocol, (name,), protocol),
    ensures
        protocol == (if name matches Some(text) && text@ == "UDP"@ {
            Protocol::Udp
        } else {
            Protocol::Tcp
        }),
{
}

// ---------------------------------------------------------------------------
// Records and the singleton
// ---------------------------------------------------------------------------

/// The plan for a resource: nothing where it is not managed; another look after ten
/// seconds while no address is known; a patch exactly where some A record does not point
/// to the address alone; and else another look after a minute. A patch points every A
/// record to the address alone and keeps everything else.
pub proof fn law_reconciled_records(
    annotations: Vec<Entry>,
    spec: DNSEndpointSpec,
    wan_ip: Option<String>,
    plan: DnsPlan,
)
    requires
        call_ensures(dns_endpoint_ctrl::reconcile, (&annotations, &spec, &wan_ip), plan),
    ensures
        ({
            let managed = lookup(entry_views(annotations@), "upnp-controller.io/managed"@) == Some(
                "true"@,
            );
            &&& !managed ==> plan is Leave
            &&& managed && wan_ip is None ==> plan == DnsPlan::Requeue(10)
            &&& managed && wan_ip is Some ==> {
                let ip = wan_ip->0@;
                let outdated = exists|i: int|
                    0 <= i < spec.endpoints@.len() && is_outdated(
                        (#[trigger] spec.endpoints@[i])@,
                        ip,
                    );
                match plan {
                    DnsPlan::Patch(written) => outdated && written.endpoints@.len()
                        == spec.endpoints@.len() && forall|i: int|
                        0 <= i < spec.endpoints@.len() ==> {
                            let was = spec.endpoints@[i];
                            let is = #[trigger] written.endpoints@[i];
                            &&& is.dns_name@ == was.dns_name@
                            &&& is.record_type@ == was.record_type@
                            &&& is.record_ttl == was.record_ttl
                            &&& was.record_type@ == "A"@ ==> is.targets@.len() == 1
                                && is.targets@[0]@ == ip
                            &&& was.record_type@ != "A"@ ==> views(is.targets@) == views(
                                was.targets@,
                            )
                        },
                    DnsPlan::Requeue(secs) => !outdated && secs == 60,
                    DnsPlan::Leave => false,
                }
            }
        }),
{
    let entries = entry_views(annotations@);
    law_outdated_records_are_patched(entries, spec@, opt(wan_ip));
    assert(asks_for_management(entries) == (lookup(entries, "upnp-controller.io/managed"@) == Some(
        "true"@,
    )));
    if asks_for_management(entries) && wan_ip is Some {
        let ip = wan_ip->0@;
        assert forall|i: int| 0 <= i < spec.endpoints@.len() implies spec@[i]
            == (#[trigger] spec.endpoints@[i])@ by {}
        if exists|i: int|
            0 <= i < spec.endpoints@.len() && is_outdated((#[trigger] spec.endpoints@[i])@, ip) {
            let i = choose|i: int|
                0 <= i < spec.endpoints@.len() && is_outdated((#[trigger] spec.endpoints@[i])@, ip);
            assert(is_outdated(spec@[i], ip));
        }
        if exists|i: int| 0 <= i < spec@.len() && is_outdated(#[trigger] spec@[i], ip) {
            let i = choose|i: int| 0 <= i < spec@.len() && is_outdated(#[trigger] spec@[i], ip);
            assert(is_outdated(spec.endpoints@[i]@, ip));
        }
        if let DnsPlan::Patch(written) = plan {
            assert(plan@->Patch_0 == written@);
            assert forall|i: int| 0 <= i < spec.endpoints@.len() implies {
                let was = spec.endpoints@[i];
                let is = #[trigger] written.endpoints@[i];
                &&& is.dns_name@ == was.dns_name@
                &&& is.record_type@ == was.record_type@
                &&& is.record_ttl == was.record_ttl
                &&& was.record_type@ == "A"@ ==> is.targets@.len() == 1 && is.targets@[0]@ == ip
                &&& was.record_type@ != "A"@ ==> views(is.targets@) == views(was.targets@)
            } by {
                law_patch_points_to_the_address(entries, spec@, ip, i);
                assert(written@[i] == written.endpoints@[i]@);
                assert(written@[i].targets == views(written.endpoints@[i].targets@));
            }
        }
    }
}

/// The published status always says what is known, and is looked at again after a minute:
/// one that says it is left alone, and in place of any other one is written that does.
pub proof fn law_reconciled_status(
    published: Option<GatewayStatusStatus>,
    observed: Observed<'_>,
    now: Timestamp,
    plan: GatewayPlan,
)
    requires
        call_ensures(gateway_ctrl::reconcile, (&published, &observed, now), plan),
    ensures
        plan.requeue_secs == 60,
        ({
            let current = published is Some && says_what_is_known(
                published->0@,
                observed.eventing@,
                observed.gateway_url@,
                opt(*observed.lan_ip),
            );
            &&& plan.update is None <==> current
            &&& plan.update matches Some(written) ==> says_what_is_known(
                written@,
                observed.eventing@,
                observed.gateway_url@,
                opt(*observed.lan_ip),
            ) && written.last_seen == Some(now)
        }),
        published matches Some(status) && opt(status.external_ip) != opt(
            observed.eventing.current_external_ip,
        ) ==> (plan.update matches Some(written) && opt(written.external_ip) == opt(
            observed.eventing.current_external_ip,
        )),
{
    law_published_status_is_current(
        match published {
            Some(s) => Some(s@),
            None => None,
        },
        observed.eventing@,
        observed.gateway_url@,
        opt(*observed.lan_ip),
        now,
    );
}

/// The singleton is created exactly where it is missing, and the resource definition is
/// waited for under its own name.
pub proof fn law_awaited_resources(
    found: Lookup,
    create: Option<String>,
    name: Option<String>,
    awaited: bool,
    selector: String,
)
    requires
        call_ensures(ensure_singleton, (found,), create),
        call_ensures(dns_endpoint_ctrl::is_awaited_crd, (&name,), awaited),
        call_ensures(dns_endpoint_ctrl::crd_selector, (), selector),
    ensures
        found is NotFound ==> (create matches Some(n) && n@ == "default"@),
        found is Found || found is Failed ==> create is None,
        awaited <==> (name matches Some(n) && n@ == "dnsendpoints.externaldns.k8s.io"@),
        selector@ == "metadata.name="@ + "dnsendpoints.externaldns.k8s.io"@,
{
}

// ---------------------------------------------------------------------------
// Mappings on the router
// ---------------------------------------------------------------------------

/// A mapping with more than thirty seconds of its lease left is waited for; any other is
/// added as the resource asks, but not during a shutdown.
pub proof fn law_reconciled_mapping(
    name: &str,
    spec: PortMappingSpec,
    status: Option<PortMappingStatus>,
    now: Timestamp,
    shutting_down: bool,
    plan: ApplyPlan,
)
    requires
        call_ensures(reconcile_apply, (name, &spec, &status, now, shutting_down), plan),
        now.wf(),
        status matches Some(s) ==> (s.lease_expiry matches Some(expiry) ==> expiry.wf()),
    ensures
        ({
            let seen = match status {
                Some(s) => Some(s@),
                None => None,
            };
            match plan {
                ApplyPlan::Wait(secs) => secs > 0 && holds_for(seen, now, secs + 30) && !holds_for(
                    seen,
                    now,
                    secs + 31,
                ),
                ApplyPlan::Add(add) => !shutting_down && !holds_for(seen, now, 31)
                    && is_mapping_of(add@, name@, spec@),
                ApplyPlan::Leave => shutting_down && !holds_for(seen, now, 31),
            }
        }),
{
    law_added_or_waited_for(
        name@,
        spec@,
        match status {
            Some(s) => Some(s@),
            None => None,
        },
        now,
        shutting_down,
    );
}

/// An addition that worked is established from now to the end of its lease; one that
/// failed says why.
pub proof fn law_outcome_of_addition(
    result: Result<u32, UpnpError>,
    now: Timestamp,
    outcome: AddOutcome,
)
    requires
        call_ensures(after_add, (result, now), outcome),
        now.wf(),
        result matches Ok(lease) ==> now.secs + lease <= MAX_SECS,
    ensures
        match result {
            Ok(lease) => outcome matches AddOutcome::Established(e) && e.renewed == now && (lease
                == 0 ==> e.lease_expiry is None) && (lease > 0 ==> (
            e.lease_expiry matches Some(expiry) && expiry.total_nanos() == now.total_nanos() + lease
                * 1_000_000_000)),
            Err(e) => outcome matches AddOutcome::Failed(status) && !status.active
                && status.lease_expiry is None && status.conditions@.len() == 1
                && status.conditions@[0].status@ == "False"@ && opt(status.conditions@[0].message)
                == Some(error_message(e@)),
        },
{
    if let AddOutcome::Failed(status) = outcome {
        assert(status@.conditions.len() == 1);
        assert(status@.conditions[0] == status.conditions@[0]@);
    }
}

/// A mapping that goes is taken off the router under its external port and protocol; its
/// resource may then go whatever came of it, and it is counted on where that failed.
pub proof fn law_cleaned_up_mapping(
    spec: PortMappingSpec,
    delete: DeleteMapping,
    result: Result<(), UpnpError>,
    outcome: CleanupOutcome,
    active: &mut ActiveMappings,
    namespace: &str,
    name: &str,
    other: (Seq<char>, Seq<char>),
)
    requires
        call_ensures(reconcile_cleanup, (&spec,), delete),
        call_ensures(after_cleanup, (&result,), outcome),
        call_ensures(ActiveMappings::cleaned_up, (active, namespace, name, outcome), ()),
    ensures
        delete.external_port == spec.external_port,
        delete.protocol@ == (match spec.protocol {
            Protocol::Tcp => "TCP"@,
            Protocol::Udp => "UDP"@,
        }),
        outcome.may_go,
        final(active)@.contains(other) <==> old(active)@.contains(other) && (result is Err || other
            != (namespace@, name@)),
{
}

/// A mapping is counted exactly while it was last seen on the router.
pub proof fn law_counted_mappings(
    active: &mut ActiveMappings,
    namespace: &str,
    name: &str,
    on_router: bool,
    other: (Seq<char>, Seq<char>),
)
    requires
        call_ensures(ActiveMappings::observe, (active, namespace, name, on_router), ()),
    ensures
        final(active)@.contains((namespace@, name@)) == on_router,
        other != (namespace@, name@) ==> final(active)@.contains(other) == old(active)@.contains(
            other,
        ),
{
}

/// Nothing is counted at first, and what is counted is counted once.
pub proof fn law_count_of_mappings(fresh: ActiveMappings, active: ActiveMappings, n: usize)
    requires
        call_ensures(ActiveMappings::new, (), fresh),
        call_ensures(ActiveMappings::count, (&active,), n),
    ensures
        fresh@ == Set::<(Seq<char>, Seq<char>)>::empty(),
        n == active@.len(),
{
}

/// What is said of a mapping on the router, and when it is looked at again: as soon as
/// thirty whole seconds of its lease are left, but not before ten seconds have passed,
/// and after an hour where the lease has no end. One that could not be added is looked at
/// again after a minute.
pub proof fn law_established_mapping(
    e: Established,
    external_ip: Option<String>,
    status: PortMappingStatus,
    now: Timestamp,
    secs: u64,
    outcome: AddOutcome,
    again: u64,
)
    requires
        call_ensures(Established::status, (&e, external_ip), status),
        call_ensures(Established::requeue_after, (&e, now), secs),
        call_ensures(AddOutcome::requeue_after, (&outcome, now), again),
        e.wf(),
        now.wf(),
    ensures
        status.active,
        opt(status.external_ip) == opt(external_ip),
        status.lease_expiry == e.lease_expiry,
        status.last_renewal == Some(e.renewed),
        status.conditions@.len() == 1,
        status.conditions@[0].type_@ == "Active"@,
        status.conditions@[0].status@ == "True"@,
        status.conditions@[0].reason@ == "MappingEstablished"@,
        status.conditions@[0].last_transition_time == Some(e.renewed),
        secs >= 10,
        e.lease_expiry is None ==> secs == 3600,
        e.lease_expiry matches Some(expiry) ==> {
            let left = expiry.total_nanos() - now.total_nanos();
            &&& left >= 40 * 1_000_000_000 ==> (secs + 30) * 1_000_000_000 <= left < (secs + 31)
                * 1_000_000_000
            &&& left < 41 * 1_000_000_000 ==> secs == 10
        },
        outcome == AddOutcome::Established(e) ==> again == secs,
        outcome is Failed ==> again == 60,
{
    law_looked_at_in_time(e, now);
    law_established_status(e, opt(external_ip));
    assert(status@.conditions.len() == 1);
    assert(status@.conditions[0] == status.conditions@[0]@);
}

/// When objects and resources are looked at again.
pub proof fn law_plans_are_looked_at_again(
    managed: ManagedPlan,
    m: Option<u64>,
    dns: DnsPlan,
    d: Option<u64>,
)
    requires
        call_ensures(ManagedPlan::requeue_after, (&managed,), m),
        call_ensures(DnsPlan::requeue_after, (&dns,), d),
    ensures
        match managed {
            ManagedPlan::Apply { .. } => m == Some(60u64),
            ManagedPlan::Retry(secs) => m == Some(secs),
            _ => m is None,
        },
        match dns {
            DnsPlan::Patch(_) => d == Some(60u64),
            DnsPlan::Requeue(secs) => d == Some(secs),
            DnsPlan::Leave => d is None,
        },
{
}

/// The messages of a reconciliation that failed, and the names of the protocols.
pub proof fn law_reconcile_messages(
    error: ReconcileError,
    text: String,
    protocol: Protocol,
    name: String,
)
    requires
        call_ensures(ReconcileError::message, (&error,), text),
        call_ensures(Protocol::to_string, (&protocol,), name),
    ensures
        text@ == (match error {
            ReconcileError::Kube(cause) => "Kube error: "@ + cause@,
            ReconcileError::Upnp(cause) => "UPnP error: "@ + cause@,
            ReconcileError::Other(cause) => cause@,
        }),
        protocol is Tcp ==> name@ == "TCP"@,
        protocol is Udp ==> name@ == "UDP"@,
{
}

} // verus!
