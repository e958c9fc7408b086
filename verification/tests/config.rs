use upnp_controller::config::{parse_host, Config, NodeSettings};
use upnp_controller::entries::Entry;

fn test_config() -> Config {
    Config {
        gateway_url: None,
        notify_port: 9091,
        metrics_port: 9090,
        poll_interval_secs: 600,
        poll_interval_fast_secs: 10,
        gena_enabled: true,
        log_level: "warn".to_string(),
        leader_election_namespace: "upnp-controller".to_string(),
        pod_ip: Some("10.0.0.1".to_string()),
        lan_ip: None,
    }
}

fn var(key: &str, value: &str) -> Entry {
    Entry { key: key.to_string(), value: value.to_string() }
}

#[test]
fn test_notify_callback_uses_pod_ip() {
    let cfg = test_config();
    assert_eq!(cfg.notify_callback_url(), "http://10.0.0.1:9091/notify");
}

#[test]
fn test_notify_callback_prefers_lan_ip() {
    let mut cfg = test_config();
    cfg.lan_ip = Some("192.168.0.102".to_string());
    assert_eq!(cfg.notify_callback_url(), "http://192.168.0.102:9091/notify");
}

#[test]
fn test_notify_callback_fallback() {
    let mut cfg = test_config();
    cfg.pod_ip = None;
    cfg.lan_ip = None;
    assert_eq!(cfg.notify_callback_url(), "http://127.0.0.1:9091/notify");
}

#[test]
fn test_parse_host() {
    assert_eq!(
        parse_host("http://192.168.0.1:5000/rootDesc.xml"),
        Some("192.168.0.1".to_string())
    );
    assert_eq!(parse_host("http://10.0.0.1/desc.xml"), Some("10.0.0.1".to_string()));
    assert_eq!(parse_host("not-a-url"), None);
}

#[test]
fn parse_host_takes_https_and_bare_hosts() {
    assert_eq!(parse_host("https://router.lan:443"), Some("router.lan".to_string()));
    assert_eq!(parse_host("http://router.lan"), Some("router.lan".to_string()));
    assert_eq!(parse_host("http://"), Some("".to_string()));
    assert_eq!(parse_host("ftp://router.lan"), None);
    assert_eq!(parse_host("http:/router"), None);
}

#[test]
fn defaults_stand_for_unset_variables() {
    let cfg = Config::from_env(&vec![]);
    assert_eq!(cfg.gateway_url.as_deref(), Some("http://192.168.0.1:5000/rootDesc.xml"));
    assert_eq!(cfg.notify_port, 9091);
    assert_eq!(cfg.metrics_port, 9090);
    assert_eq!(cfg.poll_interval_secs, 300);
    assert_eq!(cfg.poll_interval_fast_secs, 10);
    assert!(cfg.gena_enabled);
    assert_eq!(cfg.log_level, "warn");
    assert_eq!(cfg.leader_election_namespace, "upnp-controller");
    assert_eq!(cfg.pod_ip, None);
    assert_eq!(cfg.lan_ip, None);
}

#[test]
fn variables_are_read() {
    let cfg = Config::from_env(&vec![
        var("GATEWAY_URL", "http://192.168.1.1:5000/rootDesc.xml"),
        var("NOTIFY_PORT", "19091"),
        var("METRICS_PORT", "+65535"),
        var("POLL_INTERVAL_SECS", "18446744073709551615"),
        var("POLL_INTERVAL_FAST_SECS", "007"),
        var("GENA_ENABLED", "0"),
        var("LOG_LEVEL", "debug"),
        var("LEADER_ELECTION_NAMESPACE", "kube-system"),
        var("POD_IP", "10.42.0.7"),
    ]);
    assert_eq!(cfg.gateway_url.as_deref(), Some("http://192.168.1.1:5000/rootDesc.xml"));
    assert_eq!(cfg.notify_port, 19091);
    assert_eq!(cfg.metrics_port, 65535);
    assert_eq!(cfg.poll_interval_secs, u64::MAX);
    assert_eq!(cfg.poll_interval_fast_secs, 7);
    assert!(!cfg.gena_enabled);
    assert_eq!(cfg.log_level, "debug");
    assert_eq!(cfg.leader_election_namespace, "kube-system");
    assert_eq!(cfg.pod_ip.as_deref(), Some("10.42.0.7"));
}

#[test]
fn what_is_no_number_gives_the_default() {
    for value in ["", "65536", "-1", " 80", "80 ", "eighty", "+", "0x50"] {
        let cfg = Config::from_env(&vec![var("NOTIFY_PORT", value)]);
        assert_eq!(cfg.notify_port, 9091, "{:?}", value);
    }
    let cfg = Config::from_env(&vec![var("POLL_INTERVAL_SECS", "18446744073709551616")]);
    assert_eq!(cfg.poll_interval_secs, 300);
}

#[test]
fn events_are_switched_off_by_two_values_only() {
    for (value, on) in
        [("false", false), ("0", false), ("true", true), ("False", true), ("no", true), ("", true)]
    {
        assert_eq!(Config::from_env(&vec![var("GENA_ENABLED", value)]).gena_enabled, on);
    }
}

#[test]
fn node_settings_are_read() {
    let unset = NodeSettings::from_env(&vec![]);
    assert!(unset.annotate_nodes);
    assert_eq!(unset.node_name, None);
    let set = NodeSettings::from_env(&vec![
        var("ANNOTATE_NODES", "false"),
        var("NODE_NAME", "worker-1"),
    ]);
    assert!(!set.annotate_nodes);
    assert_eq!(set.node_name.as_deref(), Some("worker-1"));
}
