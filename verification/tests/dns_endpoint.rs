use upnp_controller::controllers::dns_endpoint_ctrl::{
    crd_selector, is_awaited_crd, reconcile, DNSEndpointSpec, DnsPlan, Endpoint,
};
use upnp_controller::entries::Entry;

fn managed(value: &str) -> Vec<Entry> {
    vec![Entry { key: "upnp-controller.io/managed".to_string(), value: value.to_string() }]
}

fn record(kind: &str, targets: &[&str]) -> Endpoint {
    Endpoint {
        dns_name: "home.example.com".to_string(),
        record_type: kind.to_string(),
        record_ttl: Some(60),
        targets: targets.iter().map(|t| t.to_string()).collect(),
    }
}

fn wan() -> Option<String> {
    Some("75.169.255.229".to_string())
}

#[test]
fn a_records_get_the_external_address() {
    let spec = DNSEndpointSpec {
        endpoints: vec![record("A", &[]), record("CNAME", &["a", "b"]), record("A", &["1.1.1.1", "2.2.2.2"])],
    };
    assert_eq!(reconcile(&managed("true"), &spec, &wan()).requeue_after(), Some(60));
    let written = match reconcile(&managed("true"), &spec, &wan()) {
        DnsPlan::Patch(written) => written,
        plan => panic!("{:?}", plan),
    };
    assert_eq!(written.endpoints.len(), 3);
    assert_eq!(written.endpoints[0].targets, vec!["75.169.255.229".to_string()]);
    assert_eq!(written.endpoints[0].dns_name, "home.example.com");
    assert_eq!(written.endpoints[0].record_type, "A");
    assert_eq!(written.endpoints[0].record_ttl, Some(60));
    assert_eq!(written.endpoints[1].targets, vec!["a".to_string(), "b".to_string()]);
    assert_eq!(written.endpoints[2].targets, vec!["75.169.255.229".to_string()]);
    assert!(matches!(reconcile(&managed("true"), &written, &wan()), DnsPlan::Requeue(60)));
}

#[test]
fn what_is_correct_stays() {
    let spec = DNSEndpointSpec {
        endpoints: vec![record("A", &["75.169.255.229"]), record("AAAA", &[])],
    };
    assert!(matches!(reconcile(&managed("true"), &spec, &wan()), DnsPlan::Requeue(60)));
    let none = DNSEndpointSpec { endpoints: vec![] };
    assert!(matches!(reconcile(&managed("true"), &none, &wan()), DnsPlan::Requeue(60)));
    let twice = DNSEndpointSpec {
        endpoints: vec![record("A", &["75.169.255.229", "75.169.255.229"])],
    };
    assert!(matches!(reconcile(&managed("true"), &twice, &wan()), DnsPlan::Patch(_)));
}

#[test]
fn only_annotated_resources_are_managed() {
    let spec = DNSEndpointSpec { endpoints: vec![record("A", &[])] };
    assert!(matches!(reconcile(&vec![], &spec, &wan()), DnsPlan::Leave));
    assert_eq!(reconcile(&vec![], &spec, &wan()).requeue_after(), None);
    assert_eq!(reconcile(&managed("true"), &spec, &None).requeue_after(), Some(10));
    assert!(matches!(reconcile(&managed("True"), &spec, &wan()), DnsPlan::Leave));
    assert!(matches!(reconcile(&managed("true"), &spec, &None), DnsPlan::Requeue(10)));
}

#[test]
fn the_resource_definition_is_waited_for() {
    assert!(is_awaited_crd(&Some("dnsendpoints.externaldns.k8s.io".to_string())));
    assert!(!is_awaited_crd(&Some("portmappings.upnp-controller.io".to_string())));
    assert!(!is_awaited_crd(&None));
    assert_eq!(crd_selector(), "metadata.name=dnsendpoints.externaldns.k8s.io");
}
