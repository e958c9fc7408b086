//! The metrics that the controller offers to Prometheus.

use crate::text::views;
use vstd::prelude::*;
use vstd::string::*;

verus! {

/// What a metric counts.
#[derive(Debug, Clone, Copy, PartialEq, Eq, Structural)]
pub enum MetricKind {
    Gauge,
    Counter,
}

/// A metric: its name, what it says, and the labels that it is kept by.
#[derive(Debug, Clone)]
pub struct Metric {
    pub kind: MetricKind,
    pub name: String,
    pub help: String,
    pub labels: Vec<String>,
}

/// The view of a [`Metric`].
pub struct MetricView {
    pub kind: MetricKind,
    pub name: Seq<char>,
    pub help: Seq<char>,
    pub labels: Seq<Seq<char>>,
}

impl View for Metric {
    type V = MetricView;

    open spec fn view(&self) -> MetricView {
        MetricView {
            kind: self.kind,
            name: self.name@,
            help: self.help@,
            labels: views(self.labels@),
        }
    }
}

/// A metric without labels.
fn plain(kind: MetricKind, name: &str, help: &str) -> (m: Metric)
    ensures
        m@ == (MetricView { kind, name: name@, help: help@, labels: Seq::empty() }),
{
    let m = Metric { kind, name: name.to_owned(), help: help.to_owned(), labels: Vec::new() };
    assert(views(m.labels@) =~= Seq::empty());
    m
}

/// How many mappings are on the router.
pub fn active_port_mappings() -> (m: Metric)
    ensures
        m@ == (MetricView {
            kind: MetricKind::Gauge,
            name: "upnp_active_port_mappings"@,
            help: "Number of currently active PortMappings"@,
            labels: Seq::empty(),
        }),
{
    plain(
        MetricKind::Gauge,
        "upnp_active_port_mappings",
        "Number of currently active PortMappings",
    )
}

/// How often a mapping has been put on the router, by its name.
pub fn port_mapping_renewals() -> (m: Metric)
    ensures
        m@ == (MetricView {
            kind: MetricKind::Counter,
            name: "upnp_port_mapping_renewals_total"@,
            help: "Successful port mapping renewals"@,
            labels: seq!["name"@],
        }),
{
    let mut m = plain(
        MetricKind::Counter,
        "upnp_port_mapping_renewals_total",
        "Successful port mapping renewals",
    );
    m.labels.push("name".to_owned());
    assert(views(m.labels@) =~= seq!["name"@]);
    m
}

/// How often a mapping could not be put on the router, by its name and the reason.
pub fn port_mapping_failures() -> (m: Metric)
    ensures
        m@ == (MetricView {
            kind: MetricKind::Counter,
            name: "upnp_port_mapping_failures_total"@,
            help: "Failed port mapping add/renew attempts"@,
            labels: seq!["name"@, "reason"@],
        }),
{
    let mut m = plain(
        MetricKind::Counter,
        "upnp_port_mapping_failures_total",
        "Failed port mapping add/renew attempts",
    );
    assert(m.labels@.len() == views(m.labels@).len());
    m.labels.push("name".to_owned());
    m.labels.push("reason".to_owned());
    assert(views(m.labels@) =~= seq!["name"@, "reason"@]);
    m
}

/// How often the external address has changed.
pub fn wan_ip_changes() -> (m: Metric)
    ensures
        m@ == (MetricView {
            kind: MetricKind::Counter,
            name: "upnp_wan_ip_changes_total"@,
            help: "Detected WAN IP changes"@,
            labels: Seq::empty(),
        }),
{
    plain(MetricKind::Counter, "upnp_wan_ip_changes_total", "Detected WAN IP changes")
}

/// Whether events come from the gateway.
pub fn gena_subscription_active() -> (m: Metric)
    ensures
        m@ == (MetricView {
            kind: MetricKind::Gauge,
            name: "upnp_gena_subscription_active"@,
            help: "1 if GENA subscription is live, 0 if polling fallback"@,
            labels: Seq::empty(),
        }),
{
    plain(
        MetricKind::Gauge,
        "upnp_gena_subscription_active",
        "1 if GENA subscription is live, 0 if polling fallback",
    )
}

/// When the gateway was last heard of.
pub fn gateway_last_seen() -> (m: Metric)
    ensures
        m@ == (MetricView {
            kind: MetricKind::Gauge,
            name: "upnp_gateway_last_seen_seconds"@,
            help: "Unix timestamp of last successful router contact"@,
            labels: Seq::empty(),
        }),
{
    plain(
        MetricKind::Gauge,
        "upnp_gateway_last_seen_seconds",
        "Unix timestamp of last successful router contact",
    )
}

} // verus!
