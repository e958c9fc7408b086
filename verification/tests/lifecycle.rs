use upnp_controller::config::{Config, NodeSettings};
use upnp_controller::lifecycle::{
    control_url_of, discovery_is_overridden, listen_address, poll_interval, proxy_address,
    resolve_gateway_url, shutdown_complete, shutdown_plan, subscription_request, Listed,
};
use upnp_controller::metrics::{
    active_port_mappings, gateway_last_seen, gena_subscription_active, port_mapping_failures,
    port_mapping_renewals, wan_ip_changes, MetricKind,
};
use upnp_controller::node::{annotate_node_with_wan_ip, annotation_patch, remove_node_annotation};
use upnp_controller::upnp::discovery::GatewayServices;

fn text(s: &str) -> Option<String> {
    Some(s.to_string())
}

fn services(control: Option<String>, event: Option<String>) -> GatewayServices {
    GatewayServices {
        root_url: "u".to_string(),
        wan_ip_control_url: None,
        wan_ip_event_url: None,
        wan_ppp_control_url: control,
        wan_ppp_event_url: event,
    }
}

#[test]
fn a_configured_gateway_comes_first() {
    assert_eq!(resolve_gateway_url(&text("c"), &text("d")).unwrap(), "c");
    assert_eq!(resolve_gateway_url(&text("c"), &None).unwrap(), "c");
    assert_eq!(resolve_gateway_url(&None, &text("d")).unwrap(), "d");
    assert_eq!(
        resolve_gateway_url(&None, &None).unwrap_err().message(),
        "No gateway found via SSDP and GATEWAY_URL not set"
    );
    assert!(discovery_is_overridden(&text("c"), &text("d")));
    assert!(!discovery_is_overridden(&text("c"), &text("c")));
    assert!(!discovery_is_overridden(&None, &text("d")));
}

#[test]
fn a_gateway_without_control_url_is_refused() {
    assert_eq!(control_url_of(&services(text("/c"), None)).unwrap(), "/c");
    assert_eq!(
        control_url_of(&services(None, None)).unwrap_err().message(),
        "No WANIPConnection or WANPPPConnection found in rootDesc.xml"
    );
}

#[test]
fn events_are_asked_for_where_they_can_come() {
    let mut cfg = Config::from_env(&vec![]);
    cfg.lan_ip = text("192.168.0.102");
    let request = subscription_request(&cfg, &services(None, text("http://gw/e"))).unwrap();
    assert_eq!(request.url, "http://gw/e");
    assert_eq!(request.headers[1].1, "<http://192.168.0.102:9091/notify>");
    assert_eq!(request.headers[2].1, "Second-1800");
    assert!(subscription_request(&cfg, &services(None, None)).is_none());
    cfg.gena_enabled = false;
    assert!(subscription_request(&cfg, &services(None, text("http://gw/e"))).is_none());
}

#[test]
fn intervals_and_addresses() {
    let mut cfg = Config::from_env(&vec![]);
    assert_eq!(poll_interval(&cfg, true), 300);
    assert_eq!(poll_interval(&cfg, false), 10);
    assert_eq!(proxy_address(&cfg), "127.0.0.1");
    cfg.lan_ip = text("192.168.0.102");
    assert_eq!(proxy_address(&cfg), "192.168.0.102");
    assert_eq!(listen_address(9091), "0.0.0.0:9091");
}

#[test]
fn a_shutdown_deletes_everything_and_waits() {
    let listed = vec![
        Listed { namespace: text("ns"), name: text("a") },
        Listed { namespace: None, name: None },
    ];
    let plan = shutdown_plan(&Some(listed)).unwrap();
    assert_eq!(plan.gateway_status, "default");
    let deletions = plan.port_mappings;
    assert_eq!(deletions.len(), 2);
    assert_eq!((deletions[0].namespace.as_str(), deletions[0].name.as_str()), ("ns", "a"));
    assert_eq!((deletions[1].namespace.as_str(), deletions[1].name.as_str()), ("default", "?"));
    assert!(shutdown_plan(&Some(vec![])).unwrap().port_mappings.is_empty());
    assert!(shutdown_plan(&None).is_none());
    assert!(shutdown_complete(Some(0), false));
    assert!(shutdown_complete(None, false));
    assert!(!shutdown_complete(Some(1), false));
    assert!(!shutdown_complete(Some(0), true));
}

#[test]
fn nodes_are_annotated() {
    let p = annotate_node_with_wan_ip("worker-1", "1.2.3.4");
    assert_eq!(p.node_name, "worker-1");
    assert_eq!(p.key, "external-dns.alpha.kubernetes.io/target");
    assert_eq!(p.value.as_deref(), Some("1.2.3.4"));
    assert_eq!(remove_node_annotation("worker-1").value, None);
    let on = NodeSettings { annotate_nodes: true, node_name: text("n") };
    let off = NodeSettings { annotate_nodes: false, node_name: text("n") };
    let nameless = NodeSettings { annotate_nodes: true, node_name: None };
    assert!(annotation_patch(&on, &text("1.2.3.4")).is_some());
    assert!(annotation_patch(&on, &None).is_none());
    assert!(annotation_patch(&off, &text("1.2.3.4")).is_none());
    assert!(annotation_patch(&nameless, &text("1.2.3.4")).is_none());
}

#[test]
fn metrics_have_their_names_and_labels() {
    assert_eq!(active_port_mappings().name, "upnp_active_port_mappings");
    assert_eq!(port_mapping_renewals().name, "upnp_port_mapping_renewals_total");
    assert_eq!(port_mapping_failures().name, "upnp_port_mapping_failures_total");
    assert_eq!(wan_ip_changes().name, "upnp_wan_ip_changes_total");
    assert_eq!(gena_subscription_active().name, "upnp_gena_subscription_active");
    assert_eq!(gateway_last_seen().name, "upnp_gateway_last_seen_seconds");
    assert_eq!(port_mapping_renewals().labels, vec!["name".to_string()]);
    assert_eq!(port_mapping_failures().labels, vec!["name".to_string(), "reason".to_string()]);
    assert!(active_port_mappings().labels.is_empty());
    assert_eq!(active_port_mappings().kind, MetricKind::Gauge);
    assert_eq!(wan_ip_changes().kind, MetricKind::Counter);
}
