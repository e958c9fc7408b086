//! Proxies, delays, and which answers can be read.

use crate::controllers::dns_endpoint_ctrl;
use crate::controllers::gateway_ctrl;
use crate::controllers::port_mapping_ctrl;
use crate::crds::port_mapping::Protocol;
use crate::laws::gateway::number_in;
use crate::proxy::{
    after_ensure, after_start, ensured, port_of, udp_action, Ensured, ProxyView, UdpAction,
    UdpEvent, UDP_IDLE_SECS,
};
use crate::text::{has, lemma_position, position};
use crate::upnp::eventing::{notified_value, notify_readable, SUBSCRIPTION_SECS};
use crate::upnp::port_mapping::entry_readable;
use crate::upnp::xml::{element_value, tags_in_order};
use vstd::prelude::*;
use vstd::string::*;

verus! {

/// A proxy keeps its port exactly while it is asked for with the target and the protocol
/// that it runs with. Any other must be started, and one with the same key stopped first.
pub proof fn law_proxy_is_kept_or_started(
    proxies: Map<Seq<char>, ProxyView>,
    key: Seq<char>,
    target: Seq<char>,
    protocol: Protocol,
)
    ensures
        match ensured(proxies, key, target, protocol) {
            Ensured::Running(port) => proxies.dom().contains(key) && proxies[key] == (ProxyView {
                local_port: port,
                target,
                protocol,
            }) && after_ensure(proxies, key, target, protocol) == proxies,
            Ensured::Start { stop } => {
                &&& after_ensure(proxies, key, target, protocol) == proxies.remove(key)
                &&& match stop {
                    Some(port) => proxies.dom().contains(key) && proxies[key].local_port == port
                        && (proxies[key].target != target || proxies[key].protocol != protocol),
                    None => !proxies.dom().contains(key),
                }
            },
        },
{
}

/// A started proxy is known by what it was started with, on the port that it got.
pub proof fn law_started_proxy_is_known(
    proxies: Map<Seq<char>, ProxyView>,
    key: Seq<char>,
    target: Seq<char>,
    protocol: Protocol,
    local_port: u16,
    other: Seq<char>,
)
    ensures
        ({
            let started = after_start(proxies, key, target, protocol, local_port);
            &&& started.dom().contains(key)
            &&& started[key] == (ProxyView { local_port, target, protocol })
            &&& port_of(started, key) == Some(local_port)
            &&& other != key ==> started.dom().contains(other) == proxies.dom().contains(other)
            &&& other != key && proxies.dom().contains(other) ==> started[other] == proxies[other]
            &&& port_of(proxies, other) == (if proxies.dom().contains(other) {
                Some(proxies[other].local_port)
            } else {
                None
            })
        }),
{
}

/// A UDP proxy ends when it cannot receive or is told to. It drops what it cannot
/// forward, forwards what comes from a known client, and gets a socket for a new one.
pub proof fn law_udp_proxy(clients: Set<Seq<char>>, event: UdpEvent, target_is_address: bool)
    ensures
        match event {
            UdpEvent::Datagram(client) => udp_action(clients, event, target_is_address) == (
            if !target_is_address {
                UdpAction::Drop
            } else if clients.contains(client@) {
                UdpAction::Forward
            } else {
                UdpAction::Open
            }),
            UdpEvent::RecvFailed => udp_action(clients, event, target_is_address)
                == UdpAction::Stop,
            UdpEvent::Shutdown => udp_action(clients, event, target_is_address) == UdpAction::Stop,
        },
{
}

/// An element can be read unless its end tag begins before its start tag ends.
pub proof fn law_readable_element(xml: Seq<char>, tag: Seq<char>)
    ensures
        tags_in_order(xml, tag) <==> !(has(xml, "<"@ + tag + ">"@) && has(
            xml,
            "</"@ + tag + ">"@,
        )) || position(xml, "<"@ + tag + ">"@)->0 + ("<"@ + tag + ">"@).len() <= position(
            xml,
            "</"@ + tag + ">"@,
        )->0,
{
    lemma_position(xml, "<"@ + tag + ">"@);
    lemma_position(xml, "</"@ + tag + ">"@);
}

/// Only the elements that are come to must be readable. Those of an entry are come to in
/// order, up to the first that is missing or wrong; the second of a notification only
/// where the first gives nothing.
pub proof fn law_readable_answers(xml: Seq<char>)
    ensures
        ({
            let port = tags_in_order(xml, "NewExternalPort"@);
            let port_ok = number_in(xml, "NewExternalPort"@, 65535) is Some;
            let protocol = tags_in_order(xml, "NewProtocol"@);
            let protocol_ok = element_value(xml, "NewProtocol"@) is Some;
            let client = tags_in_order(xml, "NewInternalClient"@);
            let client_ok = element_value(xml, "NewInternalClient"@) is Some;
            let own = tags_in_order(xml, "NewInternalPort"@);
            let own_ok = number_in(xml, "NewInternalPort"@, 65535) is Some;
            let rest = tags_in_order(xml, "NewPortMappingDescription"@) && tags_in_order(
                xml,
                "NewEnabled"@,
            ) && tags_in_order(xml, "NewLeaseDuration"@);
            entry_readable(xml) <==> port && (!port_ok || protocol && (!protocol_ok || client && (
            !client_ok || own && (!own_ok || rest))))
        }),
        notify_readable(xml) <==> tags_in_order(xml, "NewExternalIPAddress"@) && (notified_value(
            xml,
            "NewExternalIPAddress"@,
        ) is Some || tags_in_order(xml, "ExternalIPAddress"@)),
{
}

/// A reconciliation that failed is tried again after half a minute, a subscription is
/// asked for by the half hour, and a silent UDP client is forgotten after a minute.
pub proof fn law_delays()
    ensures
        port_mapping_ctrl::ERROR_REQUEUE_SECS == 30,
        gateway_ctrl::ERROR_REQUEUE_SECS == 30,
        dns_endpoint_ctrl::ERROR_REQUEUE_SECS == 30,
        port_mapping_ctrl::FAILURE_REQUEUE_SECS == 60,
        gateway_ctrl::REQUEUE_SECS == 60,
        SUBSCRIPTION_SECS == 1800,
        UDP_IDLE_SECS == 60,
{
}

} // verus!
