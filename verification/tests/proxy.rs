use upnp_controller::crds::port_mapping::Protocol;
use upnp_controller::proxy::{
    bind_error, local_addr_error, relay_goes_on, tcp_goes_on, Ensured, ProxyManager, RelayEvent,
    TcpEvent, UdpAction, UdpClients, UdpEvent,
};

#[test]
fn a_running_proxy_keeps_its_port() {
    let mut manager = ProxyManager::new("127.0.0.1".to_string());
    assert_eq!(manager.lan_ip, "127.0.0.1");
    assert_eq!(
        manager.ensure_proxy("test/tcp", "10.0.0.1:80", &Protocol::Tcp),
        Ensured::Start { stop: None }
    );
    assert_eq!(manager.get_port("test/tcp"), None);
    manager.started("test/tcp", "10.0.0.1:80", &Protocol::Tcp, 40000);
    assert_eq!(
        manager.ensure_proxy("test/tcp", "10.0.0.1:80", &Protocol::Tcp),
        Ensured::Running(40000)
    );
    assert_eq!(manager.get_port("test/tcp"), Some(40000));
    let stopped = manager.stop_proxy("test/tcp").unwrap();
    assert_eq!(stopped.key, "test/tcp");
    assert_eq!(stopped.local_port, 40000);
    assert_eq!(stopped.target, "10.0.0.1:80");
    assert!(manager.get_port("test/tcp").is_none());
    assert!(manager.stop_proxy("test/tcp").is_none());
}

#[test]
fn a_changed_proxy_restarts() {
    let mut manager = ProxyManager::new("127.0.0.1".to_string());
    manager.started("test/change", "a:1", &Protocol::Tcp, 1000);
    manager.started("other", "a:1", &Protocol::Tcp, 2000);
    assert_eq!(
        manager.ensure_proxy("test/change", "b:1", &Protocol::Tcp),
        Ensured::Start { stop: Some(1000) }
    );
    assert_eq!(manager.get_port("test/change"), None);
    manager.started("test/change", "b:1", &Protocol::Tcp, 3000);
    assert_eq!(
        manager.ensure_proxy("test/change", "b:1", &Protocol::Udp),
        Ensured::Start { stop: Some(3000) }
    );
    assert_eq!(manager.get_port("other"), Some(2000));
}

#[test]
fn every_key_is_listed_once() {
    let mut manager = ProxyManager::new("127.0.0.1".to_string());
    assert!(manager.active_keys().is_empty());
    manager.started("a", "t", &Protocol::Tcp, 1);
    manager.started("b", "t", &Protocol::Udp, 2);
    manager.started("a", "u", &Protocol::Tcp, 3);
    let mut keys = manager.active_keys();
    keys.sort();
    assert_eq!(keys, vec!["a".to_string(), "b".to_string()]);
    assert_eq!(manager.get_port("a"), Some(3));
}

#[test]
fn failures_have_messages() {
    assert_eq!(
        bind_error(&Protocol::Tcp, "in use"),
        "Failed to bind TCP proxy listener: in use"
    );
    assert_eq!(bind_error(&Protocol::Udp, "in use"), "Failed to bind UDP proxy socket: in use");
    assert_eq!(local_addr_error("gone"), "Failed to get local addr: gone");
}

#[test]
fn a_tcp_proxy_ends_on_failure_or_shutdown() {
    assert!(tcp_goes_on(TcpEvent::Accepted));
    assert!(!tcp_goes_on(TcpEvent::AcceptFailed));
    assert!(!tcp_goes_on(TcpEvent::Shutdown));
}

#[test]
fn a_udp_client_has_one_socket() {
    let mut clients = UdpClients::new();
    let datagram = UdpEvent::Datagram("10.0.0.9:5000".to_string());
    assert_eq!(clients.on_event(&datagram, false), UdpAction::Drop);
    assert_eq!(clients.on_event(&datagram, true), UdpAction::Open);
    assert_eq!(clients.opened("10.0.0.9:5000", false), UdpAction::Drop);
    assert_eq!(clients.on_event(&datagram, true), UdpAction::Open);
    assert_eq!(clients.opened("10.0.0.9:5000", true), UdpAction::Forward);
    assert_eq!(clients.on_event(&datagram, true), UdpAction::Forward);
    let other = UdpEvent::Datagram("10.0.0.9:5001".to_string());
    assert_eq!(clients.on_event(&other, true), UdpAction::Open);
    clients.closed("10.0.0.9:5001");
    assert_eq!(clients.on_event(&datagram, true), UdpAction::Forward);
    clients.closed("10.0.0.9:5000");
    assert_eq!(clients.on_event(&datagram, true), UdpAction::Open);
    assert_eq!(clients.on_event(&UdpEvent::RecvFailed, true), UdpAction::Stop);
    assert_eq!(clients.on_event(&UdpEvent::Shutdown, true), UdpAction::Stop);
}

#[test]
fn a_relay_ends_on_failure_or_silence() {
    assert!(relay_goes_on(RelayEvent::Relayed));
    assert!(!relay_goes_on(RelayEvent::SendFailed));
    assert!(!relay_goes_on(RelayEvent::RecvFailed));
    assert!(!relay_goes_on(RelayEvent::Idle));
}
