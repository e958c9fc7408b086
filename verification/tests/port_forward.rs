use upnp_controller::controllers::port_forward::{
    apply_port_mappings, list_owned_port_mappings, managed_selector, parse_k8s_protocol,
    parse_pod_annotation, parse_port_list, parse_service_annotation, pm_name_for_owner,
    reconcile_pod, reconcile_service, ContainerPort, ManagedMapping, ManagedPlan, Owner, Pod,
    Service, ServicePort, PORT_FORWARD_ANNOTATION,
};
use upnp_controller::crds::port_mapping::Protocol;
use upnp_controller::entries::Entry;

fn test_service_ports() -> Vec<ServicePort> {
    vec![
        ServicePort { port: 80, protocol: Some("TCP".to_string()) },
        ServicePort { port: 443, protocol: Some("TCP".to_string()) },
        ServicePort { port: 53, protocol: Some("UDP".to_string()) },
    ]
}

fn test_container_ports() -> Vec<ContainerPort> {
    vec![
        ContainerPort { container_port: 8080, protocol: Some("TCP".to_string()) },
        ContainerPort { container_port: 9090, protocol: Some("TCP".to_string()) },
    ]
}

#[test]
fn test_parse_service_annotation_true() {
    let ports = test_service_ports();
    let result = parse_service_annotation("true", &ports);
    assert_eq!(result.len(), 3);
    assert_eq!(result[0], (80, 80, Protocol::Tcp));
    assert_eq!(result[1], (443, 443, Protocol::Tcp));
    assert_eq!(result[2], (53, 53, Protocol::Udp));
}

#[test]
fn test_parse_service_annotation_selective() {
    let ports = test_service_ports();
    let result = parse_service_annotation("443,80", &ports);
    assert_eq!(result.len(), 2);
    assert_eq!(result[0], (443, 443, Protocol::Tcp));
    assert_eq!(result[1], (80, 80, Protocol::Tcp));
}

#[test]
fn test_parse_service_annotation_remap() {
    let ports = test_service_ports();
    let result = parse_service_annotation("8080:80,8443:443", &ports);
    assert_eq!(result.len(), 2);
    assert_eq!(result[0], (8080, 80, Protocol::Tcp));
    assert_eq!(result[1], (8443, 443, Protocol::Tcp));
}

#[test]
fn test_parse_service_annotation_no_match() {
    let ports = test_service_ports();
    let result = parse_service_annotation("9999", &ports);
    assert_eq!(result.len(), 0);
}

#[test]
fn test_parse_pod_annotation_true() {
    let ports = test_container_ports();
    let result = parse_pod_annotation("true", &ports);
    assert_eq!(result.len(), 2);
    assert_eq!(result[0], (8080, 8080, Protocol::Tcp));
    assert_eq!(result[1], (9090, 9090, Protocol::Tcp));
}

#[test]
fn test_parse_pod_annotation_selective() {
    let ports = test_container_ports();
    let result = parse_pod_annotation("8080", &ports);
    assert_eq!(result.len(), 1);
    assert_eq!(result[0], (8080, 8080, Protocol::Tcp));
}

#[test]
fn test_parse_pod_annotation_remap() {
    let ports = test_container_ports();
    let result = parse_pod_annotation("80:8080", &ports);
    assert_eq!(result.len(), 1);
    assert_eq!(result[0], (80, 8080, Protocol::Tcp));
}

#[test]
fn test_pm_name_for_owner() {
    assert_eq!(
        pm_name_for_owner("default", "traefik", 443, &Protocol::Tcp),
        "default-traefik-443-tcp"
    );
}

#[test]
fn protocols_are_read() {
    assert_eq!(parse_k8s_protocol(Some("UDP")), Protocol::Udp);
    assert_eq!(parse_k8s_protocol(Some("TCP")), Protocol::Tcp);
    assert_eq!(parse_k8s_protocol(Some("udp")), Protocol::Tcp);
    assert_eq!(parse_k8s_protocol(None), Protocol::Tcp);
}

#[test]
fn parts_of_a_list_are_read_one_by_one() {
    let table = vec![(80, Protocol::Tcp), (53, Protocol::Udp), (53, Protocol::Tcp)];
    assert_eq!(
        parse_port_list(" 53 , ,80,99, 5353 : 53 ,9000:99,x,1:2:3,70000:80,:80", &table),
        vec![
            (53, 53, Protocol::Udp),
            (80, 80, Protocol::Tcp),
            (5353, 53, Protocol::Udp),
            (9000, 99, Protocol::Tcp),
        ]
    );
    assert_eq!(parse_port_list("", &table), vec![]);
    assert_eq!(parse_port_list("+80", &table), vec![(80, 80, Protocol::Tcp)]);
}

#[test]
fn ports_keep_their_low_bits() {
    let ports = vec![
        ServicePort { port: 65536 + 80, protocol: None },
        ServicePort { port: -1, protocol: None },
        ServicePort { port: i32::MIN, protocol: None },
    ];
    for p in &ports {
        assert_eq!(
            parse_service_annotation("true", std::slice::from_ref(p))[0].0,
            p.port as u16
        );
    }
    assert_eq!(
        parse_service_annotation("true", &ports),
        vec![(80, 80, Protocol::Tcp), (65535, 65535, Protocol::Tcp), (0, 0, Protocol::Tcp)]
    );
}

#[test]
fn names_of_owned_mappings_differ() {
    let a = pm_name_for_owner("ns", "web", 80, &Protocol::Tcp);
    let b = pm_name_for_owner("ns", "web", 80, &Protocol::Udp);
    let c = pm_name_for_owner("ns", "web", 8, &Protocol::Tcp);
    assert_eq!(a, "ns-web-80-tcp");
    assert_eq!(b, "ns-web-80-udp");
    assert_eq!(c, "ns-web-8-tcp");
    assert!(a != b && b != c && a != c);
    let d = pm_name_for_owner("ns", "web-80", 8, &Protocol::Tcp);
    assert_eq!(d, "ns-web-80-8-tcp");
    assert_ne!(d, a);
}

fn listed() -> Vec<ManagedMapping> {
    vec![
        ManagedMapping {
            name: "ns-web-80-tcp".to_string(),
            owner_uids: vec!["other".to_string(), "uid-1".to_string()],
        },
        ManagedMapping { name: "ns-db-5432-tcp".to_string(), owner_uids: vec!["uid-2".to_string()] },
        ManagedMapping { name: "ns-web-81-tcp".to_string(), owner_uids: vec!["uid-1".to_string()] },
        ManagedMapping { name: "orphan".to_string(), owner_uids: vec![] },
    ]
}

#[test]
fn owned_mappings_are_listed() {
    assert_eq!(managed_selector(), "upnp-controller.io/managed-by=service-controller");
    assert_eq!(
        list_owned_port_mappings(&listed(), "uid-1"),
        vec!["ns-web-80-tcp".to_string(), "ns-web-81-tcp".to_string()]
    );
    assert_eq!(list_owned_port_mappings(&listed(), "uid-9"), Vec::<String>::new());
}

fn service() -> Service {
    Service {
        name: "web".to_string(),
        namespace: Some("ns".to_string()),
        uid: Some("uid-1".to_string()),
        annotations: vec![
            Entry { key: "x".to_string(), value: "y".to_string() },
            Entry { key: PORT_FORWARD_ANNOTATION.to_string(), value: "80".to_string() },
        ],
        type_: Some("LoadBalancer".to_string()),
        ingress: vec![Some("192.168.0.240".to_string()), None],
        ports: test_service_ports(),
    }
}

#[test]
fn an_annotated_service_gets_its_mappings() {
    match reconcile_service(&service(), &listed(), false) {
        ManagedPlan::Apply { manifests, stale } => {
            assert_eq!(stale, vec!["ns-web-81-tcp".to_string()]);
            assert_eq!(manifests.len(), 1);
            let m = &manifests[0];
            assert_eq!(m.name, "ns-web-80-tcp");
            assert_eq!(m.namespace, "ns");
            assert_eq!(m.managed_by, "service-controller");
            assert_eq!(m.owner.api_version, "v1");
            assert_eq!(m.owner.kind, "Service");
            assert_eq!(m.owner.name, "web");
            assert_eq!(m.owner.uid, "uid-1");
            assert!(m.owner.controller && m.owner.block_owner_deletion);
            assert_eq!(m.spec.external_port, 80);
            assert_eq!(m.spec.internal_host, "192.168.0.240");
            assert_eq!(m.spec.internal_port, 80);
            assert_eq!(m.spec.protocol, Protocol::Tcp);
            assert_eq!(m.spec.description.as_deref(), Some("auto:ns/web"));
        }
        plan => panic!("{:?}", plan),
    }
}

#[test]
fn without_the_annotation_all_owned_mappings_go() {
    let mut svc = service();
    svc.annotations.pop();
    for shutting_down in [false, true] {
        match reconcile_service(&svc, &listed(), shutting_down) {
            ManagedPlan::Remove(names) => {
                assert_eq!(names, vec!["ns-web-80-tcp".to_string(), "ns-web-81-tcp".to_string()])
            }
            plan => panic!("{:?}", plan),
        }
    }
}

#[test]
fn plans_say_when_to_look_again() {
    assert_eq!(reconcile_service(&service(), &listed(), false).requeue_after(), Some(60));
    assert_eq!(reconcile_service(&service(), &listed(), true).requeue_after(), None);
    let mut pending = service();
    pending.ingress = vec![];
    assert_eq!(reconcile_service(&pending, &listed(), false).requeue_after(), Some(5));
    assert_eq!(reconcile_service(&pending, &listed(), true).requeue_after(), Some(5));
    let mut plain = service();
    plain.annotations = vec![];
    assert_eq!(reconcile_service(&plain, &listed(), false).requeue_after(), None);
}

#[test]
fn services_that_get_no_mappings() {
    let mut cluster_ip = service();
    cluster_ip.type_ = Some("ClusterIP".to_string());
    assert!(matches!(reconcile_service(&cluster_ip, &listed(), false), ManagedPlan::Leave));
    let mut untyped = service();
    untyped.type_ = None;
    assert!(matches!(reconcile_service(&untyped, &listed(), false), ManagedPlan::Leave));
    let mut pending = service();
    pending.ingress = vec![];
    assert!(matches!(reconcile_service(&pending, &listed(), false), ManagedPlan::Retry(5)));
    pending.ingress = vec![None, Some("192.168.0.240".to_string())];
    assert!(matches!(reconcile_service(&pending, &listed(), false), ManagedPlan::Retry(5)));
    let mut unmatched = service();
    unmatched.annotations[1].value = "9999".to_string();
    assert!(matches!(reconcile_service(&unmatched, &listed(), false), ManagedPlan::Leave));
    assert!(matches!(reconcile_service(&service(), &listed(), true), ManagedPlan::Leave));
}

#[test]
fn a_service_without_namespace_and_uid() {
    let mut svc = service();
    svc.namespace = None;
    svc.uid = None;
    match reconcile_service(&svc, &listed(), false) {
        ManagedPlan::Apply { manifests, stale } => {
            assert_eq!(manifests[0].name, "default-web-80-tcp");
            assert_eq!(manifests[0].namespace, "default");
            assert_eq!(manifests[0].owner.uid, "");
            assert!(stale.is_empty());
        }
        plan => panic!("{:?}", plan),
    }
}

fn pod() -> Pod {
    Pod {
        name: "game".to_string(),
        namespace: Some("ns".to_string()),
        uid: Some("uid-3".to_string()),
        annotations: vec![Entry {
            key: PORT_FORWARD_ANNOTATION.to_string(),
            value: "true".to_string(),
        }],
        pod_ip: Some("10.42.0.9".to_string()),
        containers: vec![
            test_container_ports(),
            vec![],
            vec![ContainerPort { container_port: 53, protocol: Some("UDP".to_string()) }],
        ],
    }
}

#[test]
fn an_annotated_pod_gets_its_mappings() {
    match reconcile_pod(&pod(), &listed(), false) {
        ManagedPlan::Apply { manifests, stale } => {
            let names: Vec<&str> = manifests.iter().map(|m| m.name.as_str()).collect();
            assert_eq!(names, ["ns-game-8080-tcp", "ns-game-9090-tcp", "ns-game-53-udp"]);
            assert_eq!(manifests[2].spec.internal_host, "10.42.0.9");
            assert_eq!(manifests[2].spec.protocol, Protocol::Udp);
            assert_eq!(manifests[2].owner.kind, "Pod");
            assert!(stale.is_empty());
        }
        plan => panic!("{:?}", plan),
    }
}

#[test]
fn pods_that_get_no_mappings() {
    let mut pending = pod();
    pending.pod_ip = None;
    assert!(matches!(reconcile_pod(&pending, &listed(), false), ManagedPlan::Retry(5)));
    let mut silent = pod();
    silent.containers = vec![];
    assert!(matches!(reconcile_pod(&silent, &listed(), false), ManagedPlan::Leave));
    let mut plain = pod();
    plain.annotations = vec![];
    plain.uid = Some("uid-2".to_string());
    match reconcile_pod(&plain, &listed(), true) {
        ManagedPlan::Remove(names) => assert_eq!(names, vec!["ns-db-5432-tcp".to_string()]),
        plan => panic!("{:?}", plan),
    }
    assert!(matches!(reconcile_pod(&pod(), &listed(), true), ManagedPlan::Leave));
}

#[test]
fn applying_again_deletes_nothing() {
    let owner = Owner {
        api_version: "v1".to_string(),
        kind: "Service".to_string(),
        namespace: "ns".to_string(),
        name: "web".to_string(),
        uid: "uid-1".to_string(),
    };
    let desired = vec![(80, 80, Protocol::Tcp), (5353, 53, Protocol::Udp)];
    let owned = vec!["ns-web-80-tcp".to_string(), "ns-web-81-tcp".to_string()];
    let written = match apply_port_mappings(&owner, "10.0.0.1", &desired, &owned) {
        ManagedPlan::Apply { manifests, stale } => {
            assert_eq!(stale, vec!["ns-web-81-tcp".to_string()]);
            manifests.into_iter().map(|m| m.name).collect::<Vec<String>>()
        }
        plan => panic!("{:?}", plan),
    };
    match apply_port_mappings(&owner, "10.0.0.1", &desired, &written) {
        ManagedPlan::Apply { manifests, stale } => {
            assert_eq!(manifests.len(), 2);
            assert!(stale.is_empty());
        }
        plan => panic!("{:?}", plan),
    }
}
