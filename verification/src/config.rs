//! Settings of the controller, from environment variables.

use crate::entries::{entry_views, find_entry, lookup, Entry, EntryView};
use crate::text::{
    before, begins_with, cut_before, decimal, either, first_of, number, opt, parse_number,
    parse_unsigned, same, strip_prefix,
};
use vstd::prelude::*;
use vstd::string::*;

verus! {

/// The URL of the gateway's root description where none is set.
pub const DEFAULT_GATEWAY_URL: &'static str = "http://192.168.0.1:5000/rootDesc.xml";

/// Settings of the controller.
#[derive(Debug, Clone)]
pub struct Config {
    /// URL of the gateway's root description
    /// (e.g. `http://192.168.0.1:5000/rootDesc.xml`).
    pub gateway_url: Option<String>,
    /// Port for UPnP NOTIFY callbacks.
    pub notify_port: u16,
    /// Port for Prometheus metrics.
    pub metrics_port: u16,
    /// Polling interval when GENA is active (backup).
    pub poll_interval_secs: u64,
    /// Polling interval when GENA is unavailable.
    pub poll_interval_fast_secs: u64,
    /// Whether GENA subscription is enabled.
    pub gena_enabled: bool,
    /// Log level filter.
    pub log_level: String,
    /// Namespace for the leader election Lease object.
    pub leader_election_namespace: String,
    /// This pod's IP (for the GENA callback URL).
    pub pod_ip: Option<String>,
    /// Detected LAN IP (same subnet as the gateway).
    pub lan_ip: Option<String>,
}

/// The view of a [`Config`].
pub struct ConfigView {
    pub gateway_url: Option<Seq<char>>,
    pub notify_port: u16,
    pub metrics_port: u16,
    pub poll_interval_secs: u64,
    pub poll_interval_fast_secs: u64,
    pub gena_enabled: bool,
    pub log_level: Seq<char>,
    pub leader_election_namespace: Seq<char>,
    pub pod_ip: Option<Seq<char>>,
    pub lan_ip: Option<Seq<char>>,
}

impl View for Config {
    type V = ConfigView;

    open spec fn view(&self) -> ConfigView {
        ConfigView {
            gateway_url: opt(self.gateway_url),
            notify_port: self.notify_port,
            metrics_port: self.metrics_port,
            poll_interval_secs: self.poll_interval_secs,
            poll_interval_fast_secs: self.poll_interval_fast_secs,
            gena_enabled: self.gena_enabled,
            log_level: self.log_level@,
            leader_election_namespace: self.leader_election_namespace@,
            pod_ip: opt(self.pod_ip),
            lan_ip: opt(self.lan_ip),
        }
    }
}

/// The number that a variable holds; `default` where it is unset or holds no number up
/// to `max`.
pub open spec fn number_setting(
    vars: Seq<EntryView>,
    name: Seq<char>,
    max: nat,
    default: nat,
) -> nat {
    match lookup(vars, name) {
        Some(value) => match parse_unsigned(value, max) {
            Some(n) => n,
            None => default,
        },
        None => default,
    }
}

/// The text that a variable holds; `default` where it is unset.
pub open spec fn text_setting(
    vars: Seq<EntryView>,
    name: Seq<char>,
    default: Seq<char>,
) -> Seq<char> {
    match lookup(vars, name) {
        Some(value) => value,
        None => default,
    }
}

/// Whether a variable leaves a feature on: it does unless it is `false` or `0`.
pub open spec fn switch_setting(vars: Seq<EntryView>, name: Seq<char>) -> bool {
    match lookup(vars, name) {
        Some(value) => value != "false"@ && value != "0"@,
        None => true,
    }
}

/// The settings that environment variables hold.
pub open spec fn settings(vars: Seq<EntryView>) -> ConfigView {
    ConfigView {
        gateway_url: Some(text_setting(vars, "GATEWAY_URL"@, DEFAULT_GATEWAY_URL@)),
        notify_port: number_setting(vars, "NOTIFY_PORT"@, u16::MAX as nat, 9091) as u16,
        metrics_port: number_setting(vars, "METRICS_PORT"@, u16::MAX as nat, 9090) as u16,
        poll_interval_secs: number_setting(
            vars,
            "POLL_INTERVAL_SECS"@,
            u64::MAX as nat,
            300,
        ) as u64,
        poll_interval_fast_secs: number_setting(
            vars,
            "POLL_INTERVAL_FAST_SECS"@,
            u64::MAX as nat,
            10,
        ) as u64,
        gena_enabled: switch_setting(vars, "GENA_ENABLED"@),
        log_level: text_setting(vars, "LOG_LEVEL"@, "warn"@),
        leader_election_namespace: text_setting(
            vars,
            "LEADER_ELECTION_NAMESPACE"@,
            "upnp-controller"@,
        ),
        pod_ip: lookup(vars, "POD_IP"@),
        lan_ip: None,
    }
}

/// The number that a variable holds.
fn read_number(vars: &Vec<Entry>, name: &str, max: u64, default: u64) -> (n: u64)
    requires
        default <= max,
    ensures
        n == number_setting(entry_views(vars@), name@, max as nat, default as nat),
        n <= max,
{
    match find_entry(vars, name) {
        Some(value) => match parse_number(value, max) {
            Some(n) => n,
            None => default,
        },
        None => default,
    }
}

/// The text that a variable holds.
fn read_text(vars: &Vec<Entry>, name: &str, default: &str) -> (text: String)
    ensures
        text@ == text_setting(entry_views(vars@), name@, default@),
{
    match find_entry(vars, name) {
        Some(value) => value.to_owned(),
        None => default.to_owned(),
    }
}

/// The text that a variable holds, if it is set.
fn read_optional(vars: &Vec<Entry>, name: &str) -> (text: Option<String>)
    ensures
        opt(text) == lookup(entry_views(vars@), name@),
{
    match find_entry(vars, name) {
        Some(value) => Some(value.to_owned()),
        None => None,
    }
}

/// Whether a variable leaves a feature on.
fn read_switch(vars: &Vec<Entry>, name: &str) -> (on: bool)
    ensures
        on == switch_setting(entry_views(vars@), name@),
{
    match find_entry(vars, name) {
        Some(value) => !same(value, "false") && !same(value, "0"),
        None => true,
    }
}

/// The URL at which a gateway reaches the NOTIFY server: at the LAN address, at the
/// pod's where that is unknown, and at the loopback address where both are.
pub open spec fn callback_url(cfg: ConfigView) -> Seq<char> {
    let ip = match first_of(cfg.lan_ip, cfg.pod_ip) {
        Some(address) => address,
        None => "127.0.0.1"@,
    };
    "http://"@ + ip + ":"@ + decimal(cfg.notify_port as nat) + "/notify"@
}

impl Config {
    /// Reads the settings from environment variables.
    pub fn from_env(vars: &Vec<Entry>) -> (cfg: Config)
        ensures
            cfg@ == settings(entry_views(vars@)),
    {
        Config {
            gateway_url: Some(read_text(vars, "GATEWAY_URL", DEFAULT_GATEWAY_URL)),
            notify_port: read_number(vars, "NOTIFY_PORT", 65535, 9091) as u16,
            metrics_port: read_number(vars, "METRICS_PORT", 65535, 9090) as u16,
            poll_interval_secs: read_number(vars, "POLL_INTERVAL_SECS", u64::MAX, 300),
            poll_interval_fast_secs: read_number(vars, "POLL_INTERVAL_FAST_SECS", u64::MAX, 10),
            gena_enabled: read_switch(vars, "GENA_ENABLED"),
            log_level: read_text(vars, "LOG_LEVEL", "warn"),
            leader_election_namespace: read_text(
                vars,
                "LEADER_ELECTION_NAMESPACE",
                "upnp-controller",
            ),
            pod_ip: read_optional(vars, "POD_IP"),
            lan_ip: None,
        }
    }

    /// The URL at which a gateway reaches the NOTIFY server.
    pub fn notify_callback_url(&self) -> (url: String)
        ensures
            url@ == callback_url(self@),
    {
        let ip = match either(&self.lan_ip, &self.pod_ip) {
            Some(address) => address,
            None => "127.0.0.1",
        };
        "http://".to_owned().concat(ip).concat(":").concat(
            number(self.notify_port as u64).as_str(),
        ).concat("/notify")
    }
}

/// Settings for the annotation of the controller's node.
#[derive(Debug, Clone)]
pub struct NodeSettings {
    /// Whether the node is annotated with the external address.
    pub annotate_nodes: bool,
    /// The name of the node that the controller runs on.
    pub node_name: Option<String>,
}

impl NodeSettings {
    /// Reads the settings from environment variables.
    pub fn from_env(vars: &Vec<Entry>) -> (settings: NodeSettings)
        ensures
            settings.annotate_nodes == switch_setting(entry_views(vars@), "ANNOTATE_NODES"@),
            opt(settings.node_name) == lookup(entry_views(vars@), "NODE_NAME"@),
    {
        NodeSettings {
            annotate_nodes: read_switch(vars, "ANNOTATE_NODES"),
            node_name: read_optional(vars, "NODE_NAME"),
        }
    }
}

/// What follows the scheme of a URL.
pub open spec fn after_scheme(url: Seq<char>) -> Option<Seq<char>> {
    if begins_with(url, "http://"@) {
        Some(url.skip("http://"@.len() as int))
    } else if begins_with(url, "https://"@) {
        Some(url.skip("https://"@.len() as int))
    } else {
        None
    }
}

/// The host of a URL, without the port.
pub open spec fn host(url: Seq<char>) -> Option<Seq<char>> {
    match after_scheme(url) {
        Some(rest) => Some(before(before(rest, '/'), ':')),
        None => None,
    }
}

/// Extracts the host (without the port) from a URL such as
/// `http://192.168.0.1:5000/rootDesc.xml`.
pub fn parse_host(url: &str) -> (r: Option<String>)
    ensures
        opt(r) == host(url@),
{
    let rest = match strip_prefix(url, "http://") {
        Some(rest) => rest,
        None => match strip_prefix(url, "https://") {
            Some(rest) => rest,
            None => {
                return None;
            },
        },
    };
    Some(cut_before(cut_before(rest, '/'), ':').to_owned())
}

} // verus!
