use upnp_controller::crds::gateway_status::{GatewayStatusStatus, GATEWAY_STATUS_NAME};
use upnp_controller::crds::port_mapping::{PortMappingStatus, Protocol};

#[test]
fn test_gateway_status_default() {
    let status = GatewayStatusStatus::default();
    assert!(!status.ready);
    assert!(status.external_ip.is_none());
    assert!(status.subscription_id.is_none());
}

#[test]
fn test_protocol_display() {
    assert_eq!(Protocol::Tcp.to_string(), "TCP");
    assert_eq!(Protocol::Udp.to_string(), "UDP");
}

#[test]
fn test_port_mapping_status_default() {
    let status = PortMappingStatus::default();
    assert!(!status.active);
    assert!(status.external_ip.is_none());
    assert!(status.conditions.is_empty());
}

#[test]
fn the_rest_of_a_default_status_is_unset() {
    let mapping = PortMappingStatus::default();
    assert!(mapping.lease_expiry.is_none() && mapping.last_renewal.is_none());
    let gateway = GatewayStatusStatus::default();
    assert!(gateway.gateway_url.is_none() && gateway.subscription_expiry.is_none());
    assert!(gateway.last_seen.is_none() && gateway.lan_ip.is_none());
    assert_eq!(GATEWAY_STATUS_NAME, "default");
}
