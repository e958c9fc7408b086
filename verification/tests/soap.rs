use upnp_controller::upnp::port_mapping::{
    added_lease, can_read_entry, can_read_entry_in, can_read_external_ip, deleted, entry_from,
    external_ip_from, extract_xml_value, parse_external_ip, parse_port_mapping_entry, MappingList,
    SoapReply, UpnpClient, UpnpError,
};
use upnp_controller::upnp::xml::in_order;

fn ok(text: &str) -> SoapReply {
    SoapReply::Answer { success: true, status: "200 OK".to_string(), text: text.to_string() }
}

fn fault(text: &str) -> SoapReply {
    SoapReply::Answer {
        success: false,
        status: "500 Internal Server Error".to_string(),
        text: text.to_string(),
    }
}

fn entry(port: u16) -> String {
    format!(
        "<r><NewExternalPort>{}</NewExternalPort><NewProtocol>TCP</NewProtocol>\
         <NewInternalPort>80</NewInternalPort><NewInternalClient>192.168.1.50</NewInternalClient>\
         <NewEnabled>1</NewEnabled><NewPortMappingDescription>web</NewPortMappingDescription>\
         <NewLeaseDuration>3600</NewLeaseDuration></r>",
        port
    )
}

#[test]
fn test_parse_external_ip() {
    let xml = r#"<s:Envelope><s:Body><u:GetExternalIPAddressResponse><NewExternalIPAddress>75.169.255.229</NewExternalIPAddress></u:GetExternalIPAddressResponse></s:Body></s:Envelope>"#;
    assert_eq!(parse_external_ip(xml).unwrap(), "75.169.255.229");
}

#[test]
fn test_extract_xml_value() {
    let xml = "<root><Foo>bar</Foo></root>";
    assert_eq!(extract_xml_value(xml, "Foo").unwrap(), "bar");
    assert!(extract_xml_value(xml, "Missing").is_err());
}

#[test]
fn values_are_taken_as_they_stand() {
    assert_eq!(extract_xml_value("<a> b </a><a>c</a>", "a").unwrap(), " b ");
    assert_eq!(extract_xml_value("<a></a>", "a").unwrap(), "");
    assert_eq!(extract_xml_value("\u{e9}<a>\u{20ac}</a>", "a").unwrap(), "\u{20ac}");
    assert_eq!(
        extract_xml_value("<a>b", "a").unwrap_err().message(),
        "Tag a not found in XML"
    );
    assert!(!in_order("</a><a>", "a"));
    assert!(in_order("<a></a>", "a"));
}

#[test]
fn an_added_mapping_is_written_out() {
    let client = UpnpClient::new("http://gw/ctl".to_string());
    let r = client.add_port_mapping(8080, "192.168.1.50", 80, "TCP", "test", 3600);
    assert_eq!(r.url, "http://gw/ctl");
    assert_eq!(r.content_type, "text/xml; charset=utf-8");
    assert_eq!(
        r.soap_action,
        "\"urn:schemas-upnp-org:service:WANIPConnection:1#AddPortMapping\""
    );
    assert_eq!(
        r.body,
        r#"<?xml version="1.0"?>
<s:Envelope xmlns:s="http://schemas.xmlsoap.org/soap/envelope/"
            s:encodingStyle="http://schemas.xmlsoap.org/soap/encoding/">
  <s:Body><u:AddPortMapping xmlns:u="urn:schemas-upnp-org:service:WANIPConnection:1">
  <NewRemoteHost></NewRemoteHost>
  <NewExternalPort>8080</NewExternalPort>
  <NewProtocol>TCP</NewProtocol>
  <NewInternalPort>80</NewInternalPort>
  <NewInternalClient>192.168.1.50</NewInternalClient>
  <NewEnabled>1</NewEnabled>
  <NewPortMappingDescription>test</NewPortMappingDescription>
  <NewLeaseDuration>3600</NewLeaseDuration>
</u:AddPortMapping></s:Body>
</s:Envelope>"#
    );
}

#[test]
fn the_other_requests_are_written_out() {
    let client = UpnpClient::new("http://gw/ctl".to_string());
    let delete = client.delete_port_mapping(8080, "TCP");
    assert_eq!(
        delete.soap_action,
        "\"urn:schemas-upnp-org:service:WANIPConnection:1#DeletePortMapping\""
    );
    assert!(delete.body.contains(
        r#"<s:Body><u:DeletePortMapping xmlns:u="urn:schemas-upnp-org:service:WANIPConnection:1">
  <NewRemoteHost></NewRemoteHost>
  <NewExternalPort>8080</NewExternalPort>
  <NewProtocol>TCP</NewProtocol>
</u:DeletePortMapping></s:Body>"#
    ));
    assert!(client.get_external_ip().body.contains(
        r#"<s:Body><u:GetExternalIPAddress xmlns:u="urn:schemas-upnp-org:service:WANIPConnection:1"></u:GetExternalIPAddress></s:Body>"#
    ));
    assert!(client.get_generic_port_mapping_entry(7).body.contains(
        r#"<u:GetGenericPortMappingEntry xmlns:u="urn:schemas-upnp-org:service:WANIPConnection:1">
  <NewPortMappingIndex>7</NewPortMappingIndex>
</u:GetGenericPortMappingEntry>"#
    ));
}

#[test]
fn a_request_carries_its_mapping() {
    let client = UpnpClient::new("http://gw/ctl".to_string());
    let r = client.add_port_mapping(65535, "host", 1, "UDP", "a > b & c", 0);
    assert!(can_read_entry(&r.body));
    let e = parse_port_mapping_entry(&r.body).unwrap();
    assert_eq!(e.external_port, 65535);
    assert_eq!(e.protocol, "UDP");
    assert_eq!(e.internal_client, "host");
    assert_eq!(e.internal_port, 1);
    assert_eq!(e.description, "a > b & c");
    assert!(e.enabled);
    assert_eq!(e.lease_duration, 0);
    let d = client.delete_port_mapping(25565, "TCP");
    assert_eq!(extract_xml_value(&d.body, "NewExternalPort").unwrap(), "25565");
    assert_eq!(extract_xml_value(&d.body, "NewProtocol").unwrap(), "TCP");
}

#[test]
fn an_entry_is_read() {
    let e = parse_port_mapping_entry(&entry(8080)).unwrap();
    assert_eq!(e.external_port, 8080);
    assert_eq!(e.internal_port, 80);
    assert_eq!(e.description, "web");
    assert!(e.enabled);
    assert_eq!(e.lease_duration, 3600);
    let short = "<NewExternalPort>1</NewExternalPort><NewProtocol>UDP</NewProtocol>\
                 <NewInternalClient>h</NewInternalClient><NewInternalPort>2</NewInternalPort>\
                 <NewLeaseDuration>soon</NewLeaseDuration>";
    let e = parse_port_mapping_entry(short).unwrap();
    assert_eq!(e.description, "");
    assert!(!e.enabled);
    assert_eq!(e.lease_duration, 0);
}

#[test]
fn what_is_wrong_with_an_entry_is_said() {
    let message = |xml: String| parse_port_mapping_entry(&xml).unwrap_err().message();
    assert_eq!(message("".to_string()), "Tag NewExternalPort not found in XML");
    assert_eq!(message(entry(1).replace(">1<", ">70000<")), "Invalid external port");
    assert_eq!(message(entry(1).replace(">80<", "> 80<")), "Invalid internal port");
    assert_eq!(
        message(entry(1).replace("NewProtocol", "Other")),
        "Tag NewProtocol not found in XML"
    );
}

#[test]
fn an_answer_is_taken_or_refused() {
    assert_eq!(added_lease(ok(""), 3600).unwrap(), 3600);
    assert_eq!(
        added_lease(fault("no"), 3600).unwrap_err().message(),
        "SOAP error 500 Internal Server Error: no"
    );
    assert_eq!(added_lease(SoapReply::NotSent, 1).unwrap_err().message(), "SOAP request failed");
    assert_eq!(
        deleted(SoapReply::Unreadable).unwrap_err().message(),
        "Failed to read SOAP response"
    );
    assert!(deleted(ok("")).is_ok());
}

#[test]
fn the_external_address_is_read_from_an_answer() {
    let reply = ok("<NewExternalIPAddress>1.2.3.4</NewExternalIPAddress>");
    assert!(can_read_external_ip(&reply));
    assert_eq!(external_ip_from(reply).unwrap(), "1.2.3.4");
    assert_eq!(
        external_ip_from(ok("<x/>")).unwrap_err().message(),
        "ExternalIPAddress not found in response"
    );
    assert!(matches!(external_ip_from(fault("x")), Err(UpnpError::Soap { .. })));
    assert!(!can_read_external_ip(&ok("</NewExternalIPAddress><NewExternalIPAddress>")));
}

#[test]
fn entries_end_where_the_gateway_says_so() {
    assert!(entry_from(ok(&entry(1))).unwrap().is_some());
    assert!(entry_from(fault("<errorCode>713</errorCode>")).unwrap().is_none());
    assert!(entry_from(fault("SpecifiedArrayIndexInvalid")).unwrap().is_none());
    assert!(entry_from(fault("<errorCode>714</errorCode>")).is_err());
    assert!(entry_from(SoapReply::NotSent).is_err());
    assert!(entry_from(ok("713")).is_err());
    assert!(!can_read_entry_in(&ok("</NewExternalPort><NewExternalPort>")));
}

#[test]
fn all_entries_are_gathered_in_order() {
    let client = UpnpClient::new("http://gw/ctl".to_string());
    let mut list = MappingList::new();
    let mut indices = vec![];
    for reply in [ok(&entry(80)), ok(&entry(443)), fault("713"), ok(&entry(1))] {
        if let Some(request) = client.list_port_mappings(&list) {
            let index = list.next_index().unwrap();
            assert_eq!(request.body, client.get_generic_port_mapping_entry(index).body);
            indices.push(index);
        }
        list.advance(reply);
    }
    assert_eq!(indices, [0, 1, 2]);
    assert!(list.next_index().is_none());
    let mappings = list.finish().unwrap().unwrap();
    let ports: Vec<u16> = mappings.iter().map(|e| e.external_port).collect();
    assert_eq!(ports, [80, 443]);
}

#[test]
fn an_error_ends_the_gathering_without_a_list() {
    let mut list = MappingList::new();
    list.advance(ok(&entry(80)));
    assert_eq!(list.next_index(), Some(1));
    list.advance(SoapReply::NotSent);
    list.advance(fault("713"));
    assert_eq!(list.next_index(), None);
    assert!(matches!(list.finish(), Some(Err(UpnpError::NotSent))));
    assert!(MappingList::new().finish().is_none());
}
