use upnp_controller::time::Timestamp;
use upnp_controller::upnp::eventing::{
    can_read_notify, parse_notify_body, renew_subscription, renewal_interval_secs, renewed,
    subscribe, subscribed, unsubscribe, unsubscribed, EventingState, GenaReply, Notified,
    SidHeader,
};

fn at(secs: i64) -> Timestamp {
    Timestamp::new(secs, 0).unwrap()
}

fn answer(success: bool, sid: SidHeader) -> GenaReply {
    let status = if success { "200 OK" } else { "412 Precondition Failed" };
    GenaReply::Answer { success, status: status.to_string(), sid }
}

fn notify_body(ip: &str) -> String {
    format!("<e:property><NewExternalIPAddress>{}</NewExternalIPAddress></e:property>", ip)
}

#[test]
fn test_parse_notify_body() {
    let xml = r#"<?xml version="1.0"?>
<e:propertyset xmlns:e="urn:schemas-upnp-org:event-1-0">
  <e:property>
    <NewExternalIPAddress>75.169.255.229</NewExternalIPAddress>
  </e:property>
</e:propertyset>"#;
    assert_eq!(parse_notify_body(xml), Some("75.169.255.229".to_string()));
}

#[test]
fn test_parse_notify_body_empty() {
    let xml = "<e:propertyset><e:property><SomeOtherProp>value</SomeOtherProp></e:property></e:propertyset>";
    assert_eq!(parse_notify_body(xml), None);
}

#[test]
fn either_name_of_the_address_is_read() {
    assert_eq!(
        parse_notify_body("<ExternalIPAddress> 1.2.3.4\n</ExternalIPAddress>"),
        Some("1.2.3.4".to_string())
    );
    assert_eq!(
        parse_notify_body(
            "<ExternalIPAddress>1.2.3.4</ExternalIPAddress><NewExternalIPAddress> </NewExternalIPAddress>"
        ),
        Some("1.2.3.4".to_string())
    );
    assert_eq!(
        parse_notify_body(
            "<ExternalIPAddress>1.2.3.4</ExternalIPAddress><NewExternalIPAddress>5.6.7.8</NewExternalIPAddress>"
        ),
        Some("5.6.7.8".to_string())
    );
    assert_eq!(parse_notify_body("<NewExternalIPAddress></NewExternalIPAddress>"), None);
}

#[test]
fn a_body_with_its_tags_in_the_wrong_order_cannot_be_read() {
    assert!(!can_read_notify("</NewExternalIPAddress><NewExternalIPAddress>"));
    assert!(!can_read_notify("</ExternalIPAddress><ExternalIPAddress>"));
    assert!(can_read_notify("</NewExternalIPAddress>"));
    assert!(can_read_notify(&notify_body("1.2.3.4")));
}

#[test]
fn requests_have_their_headers() {
    let r = subscribe("http://gw/event", "http://127.0.0.1:9091/notify", 1800);
    assert_eq!(r.method, "SUBSCRIBE");
    assert_eq!(r.url, "http://gw/event");
    let headers: Vec<(&str, &str)> =
        r.headers.iter().map(|(k, v)| (k.as_str(), v.as_str())).collect();
    assert_eq!(
        headers,
        [
            ("NT", "upnp:event"),
            ("CALLBACK", "<http://127.0.0.1:9091/notify>"),
            ("TIMEOUT", "Second-1800"),
        ]
    );
    let r = renew_subscription("http://gw/event", "uuid:1", 900);
    assert_eq!(r.method, "SUBSCRIBE");
    assert_eq!(
        r.headers,
        vec![
            ("SID".to_string(), "uuid:1".to_string()),
            ("TIMEOUT".to_string(), "Second-900".to_string()),
        ]
    );
    let r = unsubscribe("http://gw/event", "uuid:1");
    assert_eq!(r.method, "UNSUBSCRIBE");
    assert_eq!(r.headers, vec![("SID".to_string(), "uuid:1".to_string())]);
}

#[test]
fn a_subscription_is_granted_or_refused() {
    let sid = SidHeader::Value("uuid:1".to_string());
    assert_eq!(subscribed(answer(true, sid.clone())).unwrap(), "uuid:1");
    assert_eq!(
        subscribed(answer(false, sid)).unwrap_err().message(),
        "SUBSCRIBE failed with status 412 Precondition Failed"
    );
    assert_eq!(
        subscribed(answer(true, SidHeader::Missing)).unwrap_err().message(),
        "No SID in SUBSCRIBE response"
    );
    assert!(subscribed(answer(true, SidHeader::Invalid)).is_err());
    assert_eq!(
        subscribed(GenaReply::NotSent).unwrap_err().message(),
        "SUBSCRIBE request failed"
    );
}

#[test]
fn a_renewal_succeeds_or_fails() {
    assert!(renewed(answer(true, SidHeader::Missing)).is_ok());
    assert!(renewed(answer(false, SidHeader::Missing)).is_err());
    assert!(renewed(GenaReply::NotSent).is_err());
    assert!(unsubscribed(answer(false, SidHeader::Missing)).is_ok());
    assert!(unsubscribed(GenaReply::NotSent).is_err());
    assert_eq!(renewal_interval_secs(1800), 900);
}

#[test]
fn a_new_address_is_noticed() {
    let mut state = EventingState::new();
    assert!(state.set_external_ip("1.2.3.4".to_string()));
    assert!(!state.set_external_ip("1.2.3.4".to_string()));
    assert_eq!(state.notify(&notify_body("1.2.3.4"), 10), Notified::SameAddress);
    assert_eq!(state.notify(&notify_body("5.6.7.8"), 20), Notified::NewAddress);
    assert_eq!(state.notify("<x/>", 30), Notified::Nothing);
    assert_eq!(state.current_external_ip.as_deref(), Some("5.6.7.8"));
    assert_eq!(state.last_notify, Some(20));
}

#[test]
fn polling_stands_in_for_events() {
    let mut state = EventingState::new();
    assert!(state.should_poll(0));
    state.start_subscription("uuid:1".to_string(), at(0), 1800);
    assert!(state.should_poll(0));
    state.notify(&notify_body("1.2.3.4"), 1000);
    assert!(!state.should_poll(1000));
    assert!(!state.should_poll(601_000));
    assert!(state.should_poll(601_001));
    assert!(!state.should_poll(500));
    state.finish_renewal(true, at(900), 1800);
    assert_eq!(state.subscription.as_ref().unwrap().expiry, at(2700));
    assert_eq!(state.due_for_renewal().as_deref(), Some("uuid:1"));
    assert!(!state.should_poll(2000));
    state.finish_renewal(false, at(1800), 1800);
    assert!(state.subscription.is_none());
    assert!(state.due_for_renewal().is_none());
    assert!(state.should_poll(2000));
    state.finish_renewal(true, at(1900), 1800);
    assert!(state.subscription.is_none());
}
