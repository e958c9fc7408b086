use upnp_controller::upnp::discovery::{
    base_url_from, discover_gateway, parse_root_desc, services_in, ssdp_location, XmlToken,
    SSDP_ADDRESS, SSDP_SEARCH,
};

const SAMPLE_ROOT_DESC: &str = r#"<?xml version="1.0"?>
<root xmlns="urn:schemas-upnp-org:device-1-0">
  <device>
    <deviceList>
      <device>
        <deviceList>
          <device>
            <serviceList>
              <service>
                <serviceType>urn:schemas-upnp-org:service:WANIPConnection:1</serviceType>
                <serviceId>urn:upnp-org:serviceId:WANIPConn1</serviceId>
                <controlURL>/upnp/control/WANIPConn1</controlURL>
                <eventSubURL>/upnp/event/WANIPConn1</eventSubURL>
              </service>
            </serviceList>
          </device>
        </deviceList>
      </device>
    </deviceList>
  </device>
</root>"#;

#[test]
fn test_parse_root_desc() {
    let services = parse_root_desc(
        SAMPLE_ROOT_DESC,
        "http://192.168.0.1:5000",
        "http://192.168.0.1:5000/rootDesc.xml",
    )
    .unwrap();
    assert!(services.wan_ip_control_url.is_some());
    assert_eq!(
        services.wan_ip_control_url.unwrap(),
        "http://192.168.0.1:5000/upnp/control/WANIPConn1"
    );
}

#[test]
fn test_base_url_from() {
    assert_eq!(
        base_url_from("http://192.168.0.1:5000/rootDesc.xml"),
        "http://192.168.0.1:5000"
    );
}

fn service(kind: &str, control: &str, event: &str) -> String {
    format!(
        "<service><serviceType>{}</serviceType><controlURL>{}</controlURL>\
         <eventSubURL>{}</eventSubURL></service>",
        kind, control, event
    )
}

#[test]
fn both_urls_of_a_service_are_found() {
    let services = parse_root_desc(
        SAMPLE_ROOT_DESC,
        "http://192.168.0.1:5000",
        "http://192.168.0.1:5000/rootDesc.xml",
    )
    .unwrap();
    assert_eq!(services.root_url, "http://192.168.0.1:5000/rootDesc.xml");
    assert_eq!(services.control_url(), Some("http://192.168.0.1:5000/upnp/control/WANIPConn1"));
    assert_eq!(services.event_url(), Some("http://192.168.0.1:5000/upnp/event/WANIPConn1"));
    assert_eq!(services.wan_ppp_control_url, None);
    assert_eq!(services.wan_ppp_event_url, None);
}

#[test]
fn an_ip_connection_is_preferred() {
    let ppp = service("WANPPPConnection:1", "/ppp", "/ppp-event");
    let ip = service("WANIPConnection:2", "http://gw/ip", "relative");
    let other = service("Layer3Forwarding:1", "/l3", "/l3");
    let only_ppp = parse_root_desc(&format!("<r>{}{}</r>", ppp, other), "http://gw", "u").unwrap();
    assert_eq!(only_ppp.control_url(), Some("http://gw/ppp"));
    assert_eq!(only_ppp.event_url(), Some("http://gw/ppp-event"));
    let both = parse_root_desc(&format!("<r>{}{}</r>", ip, ppp), "http://gw", "u").unwrap();
    assert_eq!(both.control_url(), Some("http://gw/ip"));
    assert_eq!(both.event_url(), Some("relative"));
    let none = parse_root_desc(&format!("<r>{}</r>", other), "http://gw", "u").unwrap();
    assert_eq!(none.control_url(), None);
    assert_eq!(none.event_url(), None);
}

#[test]
fn the_last_service_of_a_type_counts() {
    let a = service("WANIPConnection:1", "/a", "/ae");
    let b = service("WANIPConnection:1", "/b", "/be");
    let services = parse_root_desc(&format!("<r>{}{}</r>", a, b), "http://gw", "u").unwrap();
    assert_eq!(services.control_url(), Some("http://gw/b"));
}

#[test]
fn text_is_unescaped_and_trimmed() {
    let xml = "<r><service><serviceType> WANIPConnection </serviceType>\
               <controlURL>\n /c?a=1&amp;b=2 \n</controlURL></service></r>";
    let services = parse_root_desc(xml, "http://gw", "u").unwrap();
    assert_eq!(services.control_url(), Some("http://gw/c?a=1&b=2"));
    assert_eq!(services.event_url(), Some(""));
    let unknown = "<service><serviceType>WANIPConnection</serviceType>\
                   <controlURL>/c&nope;</controlURL></service>";
    assert_eq!(parse_root_desc(unknown, "http://gw", "u").unwrap().control_url(), Some(""));
}

#[test]
fn an_ill_formed_document_is_refused() {
    let error = parse_root_desc("<a></b>", "http://gw", "u").unwrap_err();
    assert!(error.message().starts_with("XML parse error: "));
    assert!(error.message().len() > "XML parse error: ".len());
    assert!(parse_root_desc("", "http://gw", "u").unwrap().control_url().is_none());
}

#[test]
fn tokens_are_scanned_in_order() {
    let start = |s: &str| XmlToken::Start(s.to_string());
    let end = |s: &str| XmlToken::End(s.to_string());
    let text = |s: &str| XmlToken::Text(Some(s.to_string()));
    let mut tokens = vec![
        start("controlURL"),
        text("/outside"),
        end("service"),
        start("service"),
        start("serviceType"),
        text("x:WANIPConnection:1"),
        end("serviceType"),
        XmlToken::Other,
        start("controlURL"),
        text("/inside"),
        end("controlURL"),
        start("eventSubURL"),
        XmlToken::Text(None),
        end("eventSubURL"),
        end("service"),
    ];
    let services = services_in(&tokens, "http://gw", "u").unwrap();
    assert_eq!(services.control_url(), Some("http://gw/inside"));
    assert_eq!(services.event_url(), Some(""));
    tokens.push(XmlToken::Malformed("here".to_string()));
    assert_eq!(
        services_in(&tokens, "http://gw", "u").unwrap_err().message(),
        "XML parse error: here"
    );
}

#[test]
fn base_urls_of_other_shapes() {
    assert_eq!(base_url_from("https://gw/a/b"), "https://gw");
    assert_eq!(base_url_from("http://gw:80"), "http://gw:80");
    assert_eq!(base_url_from("no-scheme/x"), "no-scheme/x");
    assert_eq!(base_url_from("http:///x"), "http://");
}

#[test]
fn the_location_of_an_answer_is_found() {
    let answer = "HTTP/1.1 200 OK\r\nST: upnp:rootdevice\r\n\
                  Location: http://192.168.0.1:5000/rootDesc.xml\r\nLOCATION: http://other\r\n\r\n";
    assert_eq!(
        ssdp_location(answer).as_deref(),
        Some("http://192.168.0.1:5000/rootDesc.xml")
    );
    assert_eq!(ssdp_location("HTTP/1.1 200 OK\r\nST: x\r\n\r\n"), None);
    assert!(SSDP_SEARCH.contains(SSDP_ADDRESS));
}

#[test]
fn a_gateway_is_discovered_from_its_description() {
    let services = discover_gateway("http://192.168.0.1:5000/rootDesc.xml", SAMPLE_ROOT_DESC).unwrap();
    assert_eq!(services.root_url, "http://192.168.0.1:5000/rootDesc.xml");
    assert_eq!(services.control_url(), Some("http://192.168.0.1:5000/upnp/control/WANIPConn1"));
}
