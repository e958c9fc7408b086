//! What the controller decides when it starts and when it shuts down.

use crate::config::{callback_url, Config};
use crate::crds::gateway_status::GATEWAY_STATUS_NAME;
use crate::text::{decimal, either, first_of, number, opt, same};
use crate::upnp::discovery::GatewayServices;
use crate::upnp::eventing::{
    subscribe, timeout_header, GenaRequest, GenaRequestView, SUBSCRIPTION_SECS,
};
use vstd::prelude::*;
use vstd::string::*;

verus! {

// ---------------------------------------------------------------------------
// Starting
// ---------------------------------------------------------------------------

/// Why the controller cannot start.
#[derive(Debug, Clone, Copy, PartialEq, Eq, Structural)]
pub enum StartupError {
    /// No gateway is configured and none was found.
    NoGateway,
    /// The gateway cannot be asked for port mappings.
    NoControlUrl,
}

impl StartupError {
    /// The message for the log.
    pub fn message(&self) -> (text: String)
        ensures
            text@ == match *self {
                StartupError::NoGateway => "No gateway found via SSDP and GATEWAY_URL not set"@,
                StartupError::NoControlUrl =>
                    "No WANIPConnection or WANPPPConnection found in rootDesc.xml"@,
            },
    {
        match self {
            StartupError::NoGateway =>
                "No gateway found via SSDP and GATEWAY_URL not set".to_owned(),
            StartupError::NoControlUrl =>
                "No WANIPConnection or WANPPPConnection found in rootDesc.xml".to_owned(),
        }
    }
}

/// The URL of the gateway's root description: the configured one, else the one that
/// was found.
pub fn resolve_gateway_url(configured: &Option<String>, discovered: &Option<String>) -> (r: Result<
    String,
    StartupError,
>)
    ensures
        match r {
            Ok(url) => first_of(opt(*configured), opt(*discovered)) == Some(url@),
            Err(e) => first_of(opt(*configured), opt(*discovered)) is None && e
                == StartupError::NoGateway,
        },
{
    match either(configured, discovered) {
        Some(url) => Ok(url.to_owned()),
        None => Err(StartupError::NoGateway),
    }
}

/// Whether a gateway was found that is not the configured one.
pub fn discovery_is_overridden(configured: &Option<String>, discovered: &Option<String>) -> (r:
    bool)
    ensures
        r == (configured is Some && discovered is Some && configured->0@ != discovered->0@),
{
    match (configured, discovered) {
        (Some(c), Some(d)) => !same(c.as_str(), d.as_str()),
        _ => false,
    }
}

/// The URL at which the gateway is asked for port mappings.
pub fn control_url_of(services: &GatewayServices) -> (r: Result<String, StartupError>)
    ensures
        match r {
            Ok(url) => first_of(
                services@.wan_ip_control_url,
                services@.wan_ppp_control_url,
            ) == Some(url@),
            Err(e) => first_of(services@.wan_ip_control_url, services@.wan_ppp_control_url) is None
                && e == StartupError::NoControlUrl,
        },
{
    match services.control_url() {
        Some(url) => Ok(url.to_owned()),
        None => Err(StartupError::NoControlUrl),
    }
}

/// The request to subscribe to the gateway's events: there is one where events are
/// enabled and the gateway offers them.
pub fn subscription_request(cfg: &Config, services: &GatewayServices) -> (r: Option<GenaRequest>)
    ensures
        match first_of(services@.wan_ip_event_url, services@.wan_ppp_event_url) {
            Some(event_url) => if cfg.gena_enabled {
                r matches Some(request) && request@ == (GenaRequestView {
                    method: "SUBSCRIBE"@,
                    url: event_url,
                    headers: seq![
                        ("NT"@, "upnp:event"@),
                        ("CALLBACK"@, "<"@ + callback_url(cfg@) + ">"@),
                        ("TIMEOUT"@, timeout_header(SUBSCRIPTION_SECS as nat)),
                    ],
                })
            } else {
                r is None
            },
            None => r is None,
        },
{
    if !cfg.gena_enabled {
        return None;
    }
    match services.event_url() {
        Some(event_url) => Some(
            subscribe(event_url, cfg.notify_callback_url().as_str(), SUBSCRIPTION_SECS),
        ),
        None => None,
    }
}

/// The seconds from one poll of the gateway to the next.
pub fn poll_interval(cfg: &Config, gena_active: bool) -> (secs: u64)
    ensures
        secs == if gena_active {
            cfg.poll_interval_secs
        } else {
            cfg.poll_interval_fast_secs
        },
{
    if gena_active {
        cfg.poll_interval_secs
    } else {
        cfg.poll_interval_fast_secs
    }
}

/// The address of the controller's proxies.
pub fn proxy_address(cfg: &Config) -> (ip: String)
    ensures
        ip@ == match cfg.lan_ip {
            Some(lan_ip) => lan_ip@,
            None => "127.0.0.1"@,
        },
{
    match &cfg.lan_ip {
        Some(lan_ip) => lan_ip.clone(),
        None => "127.0.0.1".to_owned(),
    }
}

/// The address on which a server listens.
pub fn listen_address(port: u16) -> (address: String)
    ensures
        address@ == "0.0.0.0:"@ + decimal(port as nat),
{
    "0.0.0.0:".to_owned().concat(number(port as u64).as_str())
}

// ---------------------------------------------------------------------------
// Shutting down
// ---------------------------------------------------------------------------

/// A `PortMapping` as it was listed.
#[derive(Debug, Clone)]
pub struct Listed {
    pub namespace: Option<String>,
    pub name: Option<String>,
}

/// A `PortMapping` to be deleted.
#[derive(Debug, Clone)]
pub struct Deletion {
    pub namespace: String,
    pub name: String,
}

impl View for Deletion {
    /// The namespace and the name.
    type V = (Seq<char>, Seq<char>);

    open spec fn view(&self) -> (Seq<char>, Seq<char>) {
        (self.namespace@, self.name@)
    }
}

/// The namespace and the name under which a listed resource is deleted.
pub open spec fn deletion_of(listed: Listed) -> (Seq<char>, Seq<char>) {
    (
        match listed.namespace {
            Some(namespace) => namespace@,
            None => "default"@,
        },
        match listed.name {
            Some(name) => name@,
            None => "?"@,
        },
    )
}

/// The deletions of all mappings, so that each is taken off the router before the
/// controller goes.
fn shutdown_deletions(listed: &Vec<Listed>) -> (deletions: Vec<Deletion>)
    ensures
        deletions@.map_values(|d: Deletion| d@) == listed@.map_values(|l: Listed| deletion_of(l)),
{
    let mut deletions: Vec<Deletion> = Vec::new();
    let mut i: usize = 0;
    while i < listed.len()
        invariant
            i <= listed.len(),
            deletions.len() == i,
            forall|k: int| 0 <= k < i ==> (#[trigger] deletions@[k])@ == deletion_of(listed@[k]),
        decreases listed.len() - i,
    {
        let namespace = match &listed[i].namespace {
            Some(namespace) => namespace.clone(),
            None => "default".to_owned(),
        };
        let name = match &listed[i].name {
            Some(name) => name.clone(),
            None => "?".to_owned(),
        };
        deletions.push(Deletion { namespace, name });
        i += 1;
    }
    assert(deletions@.map_values(|d: Deletion| d@) =~= listed@.map_values(
        |l: Listed| deletion_of(l),
    ));
    deletions
}

/// What a shutdown deletes.
#[derive(Debug, Clone)]
pub struct ShutdownPlan {
    pub port_mappings: Vec<Deletion>,
    /// The name of the `GatewayStatus` singleton.
    pub gateway_status: String,
}

/// What a shutdown deletes: all mappings that were listed, then the singleton. Where the
/// mappings could not be listed, it deletes nothing and waits for nothing.
pub fn shutdown_plan(listed: &Option<Vec<Listed>>) -> (plan: Option<ShutdownPlan>)
    ensures
        match *listed {
            Some(mappings) => plan matches Some(p) && p.port_mappings@.map_values(|d: Deletion| d@)
                == mappings@.map_values(|l: Listed| deletion_of(l)) && p.gateway_status@
                == GATEWAY_STATUS_NAME@,
            None => plan is None,
        },
{
    match listed {
        Some(mappings) => Some(
            ShutdownPlan {
                port_mappings: shutdown_deletions(mappings),
                gateway_status: GATEWAY_STATUS_NAME.to_owned(),
            },
        ),
        None => None,
    }
}

/// Whether everything is gone. A count that could not be had is taken for none.
pub fn shutdown_complete(port_mappings: Option<usize>, gateway_status_exists: bool) -> (r: bool)
    ensures
        r == (!gateway_status_exists && (port_mappings is None || port_mappings == Some(0usize))),
{
    let count: usize = match port_mappings {
        Some(n) => n,
        None => 0,
    };
    count == 0 && !gateway_status_exists
}

} // verus!
