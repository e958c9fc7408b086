//! What the controller does when it starts, runs and stops, stated of the calls that
//! decide it.

use crate::config::{Config, NodeSettings};
use crate::crds::port_mapping::Protocol;
use crate::entries::{entry_views, find_entry, lookup, Entry};
use crate::laws::settings::{law_callback_url, law_settings, number_or, set_or};
use crate::laws::text::law_lookup;
use crate::lifecycle::{
    control_url_of, discovery_is_overridden, listen_address, poll_interval, proxy_address,
    deletion_of, resolve_gateway_url, shutdown_complete, shutdown_plan, subscription_request,
    Deletion, Listed, ShutdownPlan, StartupError,
};
use crate::metrics::{
    active_port_mappings, gateway_last_seen, gena_subscription_active, port_mapping_failures,
    port_mapping_renewals, wan_ip_changes, Metric,
};
use crate::node::{annotate_node_with_wan_ip, annotation_patch, remove_node_annotation, NodePatch};
use crate::proxy::{
    bind_error, local_addr_error, relay_goes_on, tcp_goes_on, Ensured, Proxy, ProxyManager,
    ProxyView, RelayEvent, TcpEvent, UdpAction, UdpClients, UdpEvent,
};
use crate::text::{decimal, opt, views};
use crate::upnp::discovery::GatewayServices;
use crate::upnp::eventing::GenaRequest;
use vstd::prelude::*;
use vstd::string::*;

verus! {

// ---------------------------------------------------------------------------
// Settings
// ---------------------------------------------------------------------------

/// Every setting comes from its own variable, and has its own default.
pub proof fn law_settings_are_read(vars: Vec<Entry>, cfg: Config, node: NodeSettings)
    requires
        call_ensures(Config::from_env, (&vars,), cfg),
        call_ensures(NodeSettings::from_env, (&vars,), node),
    ensures
        ({
            let v = entry_views(vars@);
            &&& opt(cfg.gateway_url) == Some(
                set_or(v, "GATEWAY_URL"@, "http://192.168.0.1:5000/rootDesc.xml"@),
            )
            &&& cfg.notify_port == number_or(v, "NOTIFY_PORT"@, 65535, 9091)
            &&& cfg.metrics_port == number_or(v, "METRICS_PORT"@, 65535, 9090)
            &&& cfg.poll_interval_secs == number_or(
                v,
                "POLL_INTERVAL_SECS"@,
                0xffff_ffff_ffff_ffff,
                300,
            )
            &&& cfg.poll_interval_fast_secs == number_or(
                v,
                "POLL_INTERVAL_FAST_SECS"@,
                0xffff_ffff_ffff_ffff,
                10,
            )
            &&& cfg.gena_enabled == !(lookup(v, "GENA_ENABLED"@) == Some("false"@) || lookup(
                v,
                "GENA_ENABLED"@,
            ) == Some("0"@))
            &&& cfg.log_level@ == set_or(v, "LOG_LEVEL"@, "warn"@)
            &&& cfg.leader_election_namespace@ == set_or(
                v,
                "LEADER_ELECTION_NAMESPACE"@,
                "upnp-controller"@,
            )
            &&& opt(cfg.pod_ip) == lookup(v, "POD_IP"@)
            &&& cfg.lan_ip is None
            &&& node.annotate_nodes == !(lookup(v, "ANNOTATE_NODES"@) == Some("false"@) || lookup(
                v,
                "ANNOTATE_NODES"@,
            ) == Some("0"@))
            &&& opt(node.node_name) == lookup(v, "NODE_NAME"@)
        }),
{
    law_settings(entry_views(vars@));
}

/// The value of a key is that of its first entry.
pub proof fn law_found_entry(entries: Vec<Entry>, key: &str, value: Option<&str>)
    requires
        call_ensures(find_entry, (&entries, key), value),
    ensures
        match value {
            Some(v) => exists|i: int|
                0 <= i < entries@.len() && (#[trigger] entries@[i]).key@ == key@
                    && entries@[i].value@ == v@ && forall|j: int|
                    0 <= j < i ==> (#[trigger] entries@[j]).key@ != key@,
            None => forall|j: int|
                0 <= j < entries@.len() ==> (#[trigger] entries@[j]).key@ != key@,
        },
{
    law_lookup(entry_views(entries@), key@);
    assert forall|j: int| 0 <= j < entries@.len() implies entry_views(entries@)[j]
        == (#[trigger] entries@[j])@ by {}
    let all = entry_views(entries@);
    match value {
        Some(v) => {
            let i = choose|i: int|
                0 <= i < all.len() && (#[trigger] all[i]).key == key@ && all[i].value == v@
                    && forall|j: int| 0 <= j < i ==> (#[trigger] all[j]).key != key@;
            assert(entries@[i].key@ == key@);
            assert forall|j: int| 0 <= j < i implies (#[trigger] entries@[j]).key@ != key@ by {
                assert(all[j].key == entries@[j].key@);
            }
        },
        None => {
            assert forall|j: int| 0 <= j < entries@.len() implies (#[trigger] entries@[j]).key@
                != key@ by {
                assert(all[j].key == entries@[j].key@);
            }
        },
    }
}

// ---------------------------------------------------------------------------
// Starting
// ---------------------------------------------------------------------------

/// A configured gateway goes before one that was found, and that is told where they
/// differ. Without either the controller does not start.
pub proof fn law_gateway_of_start(
    configured: Option<String>,
    discovered: Option<String>,
    r: Result<String, StartupError>,
    overridden: bool,
)
    requires
        call_ensures(resolve_gateway_url, (&configured, &discovered), r),
        call_ensures(discovery_is_overridden, (&configured, &discovered), overridden),
    ensures
        configured matches Some(c) ==> (r matches Ok(url) && url@ == c@),
        configured is None ==> (discovered matches Some(d) ==> (r matches Ok(url) && url@ == d@)),
        configured is None && discovered is None ==> r == Err::<String, StartupError>(
            StartupError::NoGateway,
        ),
        overridden <==> (configured matches Some(c) && (discovered matches Some(d) && c@ != d@)),
{
}

/// Mappings are asked for by the IP service where there is one, else by the PPP service.
/// Without either the controller does not start.
pub proof fn law_control_of_start(services: GatewayServices, r: Result<String, StartupError>)
    requires
        call_ensures(control_url_of, (&services,), r),
    ensures
        services.wan_ip_control_url matches Some(u) ==> (r matches Ok(url) && url@ == u@),
        services.wan_ip_control_url is None ==> (services.wan_ppp_control_url matches Some(u) ==> (
        r matches Ok(url) && url@ == u@)),
        services.wan_ip_control_url is None && services.wan_ppp_control_url is None ==> r == Err::<
            String,
            StartupError,
        >(StartupError::NoControlUrl),
{
}

/// Events are asked for where they are enabled and offered, for half an hour, and at the
/// controller's own address.
pub proof fn law_subscription_of_start(
    cfg: Config,
    services: GatewayServices,
    r: Option<GenaRequest>,
    callback: String,
)
    requires
        call_ensures(subscription_request, (&cfg, &services), r),
        call_ensures(Config::notify_callback_url, (&cfg,), callback),
    ensures
        r is Some <==> cfg.gena_enabled && (services.wan_ip_event_url is Some
            || services.wan_ppp_event_url is Some),
        r matches Some(request) ==> {
            &&& request.method@ == "SUBSCRIBE"@
            &&& services.wan_ip_event_url matches Some(u) ==> request.url@ == u@
            &&& services.wan_ip_event_url is None ==> (
            services.wan_ppp_event_url matches Some(u) ==> request.url@ == u@)
            &&& request.headers@.len() == 3
            &&& request.headers@[0].0@ == "NT"@ && request.headers@[0].1@ == "upnp:event"@
            &&& request.headers@[1].0@ == "CALLBACK"@ && request.headers@[1].1@ == "<"@ + callback@
                + ">"@
            &&& request.headers@[2].0@ == "TIMEOUT"@ && request.headers@[2].1@ == "Second-"@
                + decimal(1800)
        },
        cfg.lan_ip matches Some(ip) ==> callback@ == "http://"@ + ip@ + ":"@ + decimal(
            cfg.notify_port as nat,
        ) + "/notify"@,
        cfg.lan_ip is None ==> (cfg.pod_ip matches Some(ip) ==> callback@ == "http://"@ + ip@
            + ":"@ + decimal(cfg.notify_port as nat) + "/notify"@),
        cfg.lan_ip is None && cfg.pod_ip is None ==> callback@ == "http://"@ + "127.0.0.1"@ + ":"@
            + decimal(cfg.notify_port as nat) + "/notify"@,
{
    law_callback_url(cfg@);
    if let Some(request) = r {
        let headers = request@.headers;
        assert(headers.len() == request.headers@.len());
        assert(headers[0] == (request.headers@[0].0@, request.headers@[0].1@));
        assert(headers[1] == (request.headers@[1].0@, request.headers@[1].1@));
        assert(headers[2] == (request.headers@[2].0@, request.headers@[2].1@));
    }
}

/// The gateway is polled slowly while it sends events and fast while it does not. Servers
/// listen on all addresses; proxies have the LAN address, or the loopback address.
pub proof fn law_addresses_and_intervals(
    cfg: Config,
    gena_active: bool,
    secs: u64,
    ip: String,
    port: u16,
    address: String,
)
    requires
        call_ensures(poll_interval, (&cfg, gena_active), secs),
        call_ensures(proxy_address, (&cfg,), ip),
        call_ensures(listen_address, (port,), address),
    ensures
        gena_active ==> secs == cfg.poll_interval_secs,
        !gena_active ==> secs == cfg.poll_interval_fast_secs,
        cfg.lan_ip matches Some(lan) ==> ip@ == lan@,
        cfg.lan_ip is None ==> ip@ == "127.0.0.1"@,
        address@ == "0.0.0.0:"@ + decimal(port as nat),
{
}

/// The messages of a start that failed.
pub proof fn law_startup_messages(error: StartupError, text: String)
    requires
        call_ensures(StartupError::message, (&error,), text),
    ensures
        error is NoGateway ==> text@ == "No gateway found via SSDP and GATEWAY_URL not set"@,
        error is NoControlUrl ==> text@
            == "No WANIPConnection or WANPPPConnection found in rootDesc.xml"@,
{
}

// ---------------------------------------------------------------------------
// Stopping
// ---------------------------------------------------------------------------

/// A shutdown deletes every listed mapping under its own namespace and name, in order,
/// and the singleton. It deletes nothing where the mappings could not be listed.
pub proof fn law_shutdown_deletes_all(listed: Option<Vec<Listed>>, plan: Option<ShutdownPlan>)
    requires
        call_ensures(shutdown_plan, (&listed,), plan),
    ensures
        plan is Some <==> listed is Some,
        listed matches Some(mappings) ==> (plan matches Some(p) && p.gateway_status@ == "default"@
            && p.port_mappings@.len() == mappings@.len() && forall|i: int|
            0 <= i < mappings@.len() ==> {
                let d = #[trigger] p.port_mappings@[i];
                &&& mappings@[i].namespace matches Some(ns) ==> d.namespace@ == ns@
                &&& mappings@[i].namespace is None ==> d.namespace@ == "default"@
                &&& mappings@[i].name matches Some(name) ==> d.name@ == name@
                &&& mappings@[i].name is None ==> d.name@ == "?"@
            }),
{
    if let Some(mappings) = listed {
        let p = plan->0;
        let wanted = mappings@.map_values(|l: Listed| deletion_of(l));
        let planned = p.port_mappings@.map_values(|d: Deletion| d@);
        assert(planned == wanted);
        assert(planned.len() == wanted.len());
        assert forall|i: int| 0 <= i < mappings@.len() implies (#[trigger] p.port_mappings@[i])@
            == deletion_of(mappings@[i]) by {
            assert(planned[i] == wanted[i]);
        }
    }
}

/// A shutdown is over when no mapping and no singleton is left. A count that could not be
/// had does not hold it up.
pub proof fn law_shutdown_is_over(count: Option<usize>, exists: bool, r: bool)
    requires
        call_ensures(shutdown_complete, (count, exists), r),
    ensures
        exists ==> !r,
        !exists && count is None ==> r,
        !exists && count is Some ==> r == (count->0 == 0),
{
}

// ---------------------------------------------------------------------------
// The node
// ---------------------------------------------------------------------------

/// The node is annotated with the external address where that is on and both its name
/// and the address are known, and only then. The annotation is taken away under the same
/// key.
pub proof fn law_node_annotation(
    settings: NodeSettings,
    wan_ip: Option<String>,
    patch: Option<NodePatch>,
    name: &str,
    ip: &str,
    set: NodePatch,
    removed: NodePatch,
)
    requires
        call_ensures(annotation_patch, (&settings, &wan_ip), patch),
        call_ensures(annotate_node_with_wan_ip, (name, ip), set),
        call_ensures(remove_node_annotation, (name,), removed),
    ensures
        patch is Some <==> settings.annotate_nodes && settings.node_name is Some && wan_ip is Some,
        patch matches Some(p) ==> p.node_name@ == settings.node_name->0@ && p.key@
            == "external-dns.alpha.kubernetes.io/target"@ && opt(p.value) == Some(wan_ip->0@),
        set.node_name@ == name@,
        set.key@ == "external-dns.alpha.kubernetes.io/target"@,
        opt(set.value) == Some(ip@),
        removed.node_name@ == name@,
        removed.key@ == "external-dns.alpha.kubernetes.io/target"@,
        removed.value is None,
{
}

// ---------------------------------------------------------------------------
// Proxies
// ---------------------------------------------------------------------------

/// A proxy is known as before, or unknown as before.
pub open spec fn stays(
    was: Map<Seq<char>, ProxyView>,
    is: Map<Seq<char>, ProxyView>,
    key: Seq<char>,
) -> bool {
    is.dom().contains(key) == was.dom().contains(key) && (was.dom().contains(key) ==> is[key]
        == was[key])
}

/// A proxy that is asked for keeps its port exactly while it runs with the same target
/// and protocol; one that runs with others is stopped first; and all other proxies stay.
pub proof fn law_ensured_proxy(
    manager: &mut ProxyManager,
    key: &str,
    target: &str,
    protocol: Protocol,
    r: Ensured,
    other: Seq<char>,
)
    requires
        call_ensures(ProxyManager::ensure_proxy, (manager, key, target, &protocol), r),
    ensures
        final(manager).address() == old(manager).address(),
        ({
            let known = old(manager)@.dom().contains(key@);
            let was = old(manager)@[key@];
            let same = known && was.target == target@ && was.protocol == protocol;
            &&& same ==> r == Ensured::Running(was.local_port)
            &&& known && !same ==> r == (Ensured::Start { stop: Some(was.local_port) })
            &&& !known ==> r == (Ensured::Start { stop: None })
            &&& final(manager)@.dom().contains(key@) == same
            &&& same ==> final(manager)@[key@] == was
            &&& other != key@ ==> stays(old(manager)@, final(manager)@, other)
        }),
{
}

/// A started proxy is known by what it was started with; all others stay.
pub proof fn law_started_proxy(
    manager: &mut ProxyManager,
    key: &str,
    target: &str,
    protocol: Protocol,
    local_port: u16,
    other: Seq<char>,
)
    requires
        call_ensures(ProxyManager::started, (manager, key, target, &protocol, local_port), ()),
    ensures
        final(manager).address() == old(manager).address(),
        final(manager)@.dom().contains(key@),
        final(manager)@[key@].local_port == local_port,
        final(manager)@[key@].target == target@,
        final(manager)@[key@].protocol == protocol,
        other != key@ ==> stays(old(manager)@, final(manager)@, other),
{
}

/// A stopped proxy is handed back and known no more; all others stay.
pub proof fn law_stopped_proxy(
    manager: &mut ProxyManager,
    key: &str,
    stopped: Option<Proxy>,
    other: Seq<char>,
)
    requires
        call_ensures(ProxyManager::stop_proxy, (manager, key), stopped),
    ensures
        final(manager).address() == old(manager).address(),
        !final(manager)@.dom().contains(key@),
        stopped is Some <==> old(manager)@.dom().contains(key@),
        stopped matches Some(proxy) ==> {
            let was = old(manager)@[key@];
            &&& proxy.key@ == key@
            &&& proxy.local_port == was.local_port
            &&& proxy.target@ == was.target
            &&& proxy.protocol == was.protocol
        },
        other != key@ ==> stays(old(manager)@, final(manager)@, other),
{
}

/// A manager begins with no proxies, and tells of each its port and of all their keys.
pub proof fn law_known_proxies(
    lan_ip: String,
    fresh: ProxyManager,
    manager: ProxyManager,
    key: &str,
    port: Option<u16>,
    keys: Vec<String>,
)
    requires
        call_ensures(ProxyManager::new, (lan_ip,), fresh),
        call_ensures(ProxyManager::get_port, (&manager, key), port),
        call_ensures(ProxyManager::active_keys, (&manager,), keys),
    ensures
        fresh@.dom() == Set::<Seq<char>>::empty(),
        fresh.address() == lan_ip@,
        port is Some <==> manager@.dom().contains(key@),
        port matches Some(p) ==> p == manager@[key@].local_port,
        views(keys@).contains(key@) <==> manager@.dom().contains(key@),
        views(keys@).no_duplicates(),
{
    assert(views(keys@).to_set().contains(key@) == views(keys@).contains(key@));
}

/// A TCP proxy serves until it cannot accept or is told to stop. A UDP client keeps its
/// socket while answers are sent on.
pub proof fn law_proxies_go_on(tcp: TcpEvent, t: bool, relay: RelayEvent, r: bool)
    requires
        call_ensures(tcp_goes_on, (tcp,), t),
        call_ensures(relay_goes_on, (relay,), r),
    ensures
        t <==> tcp is Accepted,
        r <==> relay is Relayed,
{
}

/// What a UDP proxy does about an event.
pub proof fn law_udp_events(
    clients: UdpClients,
    event: UdpEvent,
    target_is_address: bool,
    action: UdpAction,
)
    requires
        call_ensures(UdpClients::on_event, (&clients, &event, target_is_address), action),
    ensures
        match event {
            UdpEvent::Datagram(client) => if !target_is_address {
                action is Drop
            } else if clients@.contains(client@) {
                action is Forward
            } else {
                action is Open
            },
            UdpEvent::RecvFailed => action is Stop,
            UdpEvent::Shutdown => action is Stop,
        },
{
}

/// A client is known from when its socket is bound to when it is closed; a datagram of
/// one whose socket could not be bound is dropped.
pub proof fn law_udp_clients(
    fresh: UdpClients,
    clients: &mut UdpClients,
    client: &str,
    bound: bool,
    action: UdpAction,
    other: Seq<char>,
)
    requires
        call_ensures(UdpClients::new, (), fresh),
        call_ensures(UdpClients::opened, (clients, client, bound), action),
    ensures
        fresh@ == Set::<Seq<char>>::empty(),
        bound ==> action is Forward && final(clients)@.contains(client@),
        !bound ==> action is Drop && final(clients)@ == old(clients)@,
        other != client@ ==> final(clients)@.contains(other) == old(clients)@.contains(other),
{
}

/// A closed client is known no more; all others are.
pub proof fn law_udp_client_closes(clients: &mut UdpClients, client: &str, other: Seq<char>)
    requires
        call_ensures(UdpClients::closed, (clients, client), ()),
    ensures
        !final(clients)@.contains(client@),
        other != client@ ==> final(clients)@.contains(other) == old(clients)@.contains(other),
{
}

/// The messages of a proxy that could not be started.
pub proof fn law_proxy_messages(protocol: Protocol, cause: &str, bind: String, local: String)
    requires
        call_ensures(bind_error, (&protocol, cause), bind),
        call_ensures(local_addr_error, (cause,), local),
    ensures
        protocol is Tcp ==> bind@ == "Failed to bind TCP proxy listener: "@ + cause@,
        protocol is Udp ==> bind@ == "Failed to bind UDP proxy socket: "@ + cause@,
        local@ == "Failed to get local addr: "@ + cause@,
{
}

// ---------------------------------------------------------------------------
// Metrics
// ---------------------------------------------------------------------------

/// The metrics have names of their own. Amounts that go up and down are gauges, events
/// are counted, and what concerns one mapping is kept by its name.
pub proof fn law_metrics(
    active: Metric,
    renewals: Metric,
    failures: Metric,
    changes: Metric,
    subscribed: Metric,
    seen: Metric,
)
    requires
        call_ensures(active_port_mappings, (), active),
        call_ensures(port_mapping_renewals, (), renewals),
        call_ensures(port_mapping_failures, (), failures),
        call_ensures(wan_ip_changes, (), changes),
        call_ensures(gena_subscription_active, (), subscribed),
        call_ensures(gateway_last_seen, (), seen),
    ensures
        active.kind is Gauge && active.name@ == "upnp_active_port_mappings"@,
        renewals.kind is Counter && renewals.name@ == "upnp_port_mapping_renewals_total"@,
        failures.kind is Counter && failures.name@ == "upnp_port_mapping_failures_total"@,
        changes.kind is Counter && changes.name@ == "upnp_wan_ip_changes_total"@,
        subscribed.kind is Gauge && subscribed.name@ == "upnp_gena_subscription_active"@,
        seen.kind is Gauge && seen.name@ == "upnp_gateway_last_seen_seconds"@,
        active.help@ == "Number of currently active PortMappings"@,
        renewals.help@ == "Successful port mapping renewals"@,
        failures.help@ == "Failed port mapping add/renew attempts"@,
        changes.help@ == "Detected WAN IP changes"@,
        subscribed.help@ == "1 if GENA subscription is live, 0 if polling fallback"@,
        seen.help@ == "Unix timestamp of last successful router contact"@,
        active.labels@.len() == 0 && changes.labels@.len() == 0,
        subscribed.labels@.len() == 0 && seen.labels@.len() == 0,
        views(renewals.labels@) == seq!["name"@],
        views(failures.labels@) == seq!["name"@, "reason"@],
{
    assert(active@.labels.len() == active.labels@.len());
    assert(changes@.labels.len() == changes.labels@.len());
    assert(subscribed@.labels.len() == subscribed.labels@.len());
    assert(seen@.labels.len() == seen.labels@.len());
}

} // verus!
