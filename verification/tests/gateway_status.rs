use upnp_controller::controllers::gateway_ctrl::{ensure_singleton, reconcile, Lookup, Observed};
use upnp_controller::time::Timestamp;
use upnp_controller::upnp::eventing::{can_read_notify, parse_notify_body, EventingState};

fn parse_external_ip_from_notify(xml: &str) -> Option<String> {
    assert!(can_read_notify(xml));
    parse_notify_body(xml)
}

fn at(secs: i64) -> Timestamp {
    Timestamp::new(secs, 0).unwrap()
}

#[test]
fn test_gena_xml_parsing_with_ip() {
    let xml = r#"<?xml version="1.0"?>
<e:propertyset xmlns:e="urn:schemas-upnp-org:event-1-0">
  <e:property>
    <NewExternalIPAddress>75.169.255.229</NewExternalIPAddress>
  </e:property>
</e:propertyset>"#;
    let result = parse_external_ip_from_notify(xml);
    assert_eq!(result, Some("75.169.255.229".to_string()));
}

#[test]
fn test_gena_xml_parsing_no_ip() {
    let xml = r#"<e:propertyset xmlns:e="urn:schemas-upnp-org:event-1-0">
  <e:property><SomeOtherValue>foo</SomeOtherValue></e:property>
</e:propertyset>"#;
    assert_eq!(parse_external_ip_from_notify(xml), None);
}

#[test]
fn test_gateway_status_ready_flag() {
    let mut eventing = EventingState::new();
    let lan_ip = None;
    let url = "http://192.168.0.1:5000/rootDesc.xml";
    let observed = Observed { eventing: &eventing, gateway_url: url, lan_ip: &lan_ip };
    let status = reconcile(&None, &observed, at(100)).update.unwrap();
    assert!(!status.ready);

    eventing.set_external_ip("75.169.255.229".to_string());
    let observed = Observed { eventing: &eventing, gateway_url: url, lan_ip: &lan_ip };
    let status = reconcile(&Some(status), &observed, at(101)).update.unwrap();
    assert!(status.ready);
}

#[test]
fn the_status_says_what_is_known() {
    let mut eventing = EventingState::new();
    eventing.set_external_ip("10.99.99.99".to_string());
    eventing.start_subscription("uuid:1".to_string(), at(1000), 1800);
    let lan_ip = Some("192.168.0.102".to_string());
    let observed = Observed {
        eventing: &eventing,
        gateway_url: "http://test-gateway/rootDesc.xml",
        lan_ip: &lan_ip,
    };
    let status = reconcile(&None, &observed, at(1001)).update.unwrap();
    assert_eq!(status.external_ip.as_deref(), Some("10.99.99.99"));
    assert_eq!(status.gateway_url.as_deref(), Some("http://test-gateway/rootDesc.xml"));
    assert_eq!(status.subscription_id.as_deref(), Some("uuid:1"));
    assert_eq!(status.subscription_expiry, Some(at(2800)));
    assert_eq!(status.last_seen, Some(at(1001)));
    assert_eq!(status.lan_ip.as_deref(), Some("192.168.0.102"));
    assert!(status.ready);
    assert_eq!(reconcile(&None, &observed, at(1001)).requeue_secs, 60);
    assert_eq!(reconcile(&Some(status), &observed, at(1001)).requeue_secs, 60);
}

#[test]
fn a_written_status_is_settled() {
    let mut eventing = EventingState::new();
    eventing.set_external_ip("1.2.3.4".to_string());
    let lan_ip = None;
    let observed = Observed { eventing: &eventing, gateway_url: "u", lan_ip: &lan_ip };
    let status = reconcile(&None, &observed, at(5)).update.unwrap();
    assert!(reconcile(&Some(status.clone()), &observed, at(500)).update.is_none());
    let moved = Observed { eventing: &eventing, gateway_url: "v", lan_ip: &lan_ip };
    assert!(reconcile(&Some(status), &moved, at(500)).update.is_some());
}

#[test]
fn the_singleton_is_created_where_it_is_missing() {
    assert_eq!(ensure_singleton(Lookup::NotFound).as_deref(), Some("default"));
    assert_eq!(ensure_singleton(Lookup::Found), None);
    assert_eq!(ensure_singleton(Lookup::Failed), None);
}
