//! TCP and UDP proxies that forward external traffic to cluster services.
//!
//! Each proxy listens on a local port of the controller's node and forwards
//! connections or datagrams to a target inside the cluster. Here stand the registry of
//! the proxies that run and the decisions of their loops; the sockets are elsewhere.

use crate::crds::port_mapping::Protocol;
use crate::lists::{lemma_push, lemma_remove};
use crate::text::{among, same, views};
use vstd::prelude::*;
use vstd::string::*;

verus! {

// ---------------------------------------------------------------------------
// The registry
// ---------------------------------------------------------------------------

/// A running proxy.
#[derive(Debug, Clone)]
pub struct Proxy {
    pub key: String,
    pub local_port: u16,
    pub target: String,
    pub protocol: Protocol,
}

/// What is known of a running proxy, besides its key.
pub struct ProxyView {
    pub local_port: u16,
    pub target: Seq<char>,
    pub protocol: Protocol,
}

impl View for Proxy {
    type V = ProxyView;

    open spec fn view(&self) -> ProxyView {
        ProxyView { local_port: self.local_port, target: self.target@, protocol: self.protocol }
    }
}

/// The registry of running proxies, by key (e.g. `ns/name/80/TCP`).
pub struct ProxyManager {
    proxies: Vec<Proxy>,
    /// The controller's LAN address.
    pub lan_ip: String,
}

/// What it takes to have a proxy run.
#[derive(Debug, Clone, Copy, PartialEq, Eq, Structural)]
pub enum Ensured {
    /// It runs already, on this local port.
    Running(u16),
    /// It must be started. One with the same key that ran on the given local port must
    /// be stopped first.
    Start { stop: Option<u16> },
}

/// The proxy runs as wanted.
pub open spec fn runs(
    proxies: Map<Seq<char>, ProxyView>,
    key: Seq<char>,
    target: Seq<char>,
    protocol: Protocol,
) -> bool {
    proxies.dom().contains(key) && proxies[key].target == target && proxies[key].protocol
        == protocol
}

/// The local port of the proxy with the key.
pub open spec fn port_of(proxies: Map<Seq<char>, ProxyView>, key: Seq<char>) -> Option<u16> {
    if proxies.dom().contains(key) {
        Some(proxies[key].local_port)
    } else {
        None
    }
}

/// What it takes to have a proxy run for `key`.
pub open spec fn ensured(
    proxies: Map<Seq<char>, ProxyView>,
    key: Seq<char>,
    target: Seq<char>,
    protocol: Protocol,
) -> Ensured {
    if runs(proxies, key, target, protocol) {
        Ensured::Running(proxies[key].local_port)
    } else {
        Ensured::Start { stop: port_of(proxies, key) }
    }
}

/// The registry after a proxy has been asked for: one that runs otherwise than wanted
/// is no longer in it.
pub open spec fn after_ensure(
    proxies: Map<Seq<char>, ProxyView>,
    key: Seq<char>,
    target: Seq<char>,
    protocol: Protocol,
) -> Map<Seq<char>, ProxyView> {
    if runs(proxies, key, target, protocol) {
        proxies
    } else {
        proxies.remove(key)
    }
}

/// The registry after a proxy has been started.
pub open spec fn after_start(
    proxies: Map<Seq<char>, ProxyView>,
    key: Seq<char>,
    target: Seq<char>,
    protocol: Protocol,
    local_port: u16,
) -> Map<Seq<char>, ProxyView> {
    proxies.insert(key, ProxyView { local_port, target, protocol })
}

/// The registry that a list of proxies stands for.
spec fn registry(proxies: Seq<Proxy>) -> Map<Seq<char>, ProxyView> {
    Map::new(
        |key: Seq<char>| exists|i: int| 0 <= i < proxies.len() && (#[trigger] proxies[i]).key@ == key,
        |key: Seq<char>|
            proxies[choose|i: int| 0 <= i < proxies.len() && (#[trigger] proxies[i]).key@ == key]@,
    )
}

/// No two proxies of a list have the same key.
spec fn distinct(proxies: Seq<Proxy>) -> bool {
    forall|i: int, j: int|
        0 <= i < j < proxies.len() ==> (#[trigger] proxies[i]).key@ != (#[trigger] proxies[j]).key@
}

impl View for ProxyManager {
    type V = Map<Seq<char>, ProxyView>;

    closed spec fn view(&self) -> Map<Seq<char>, ProxyView> {
        registry(self.proxies@)
    }
}

impl ProxyManager {
    /// Every key stands for one proxy.
    pub closed spec fn wf(self) -> bool {
        distinct(self.proxies@)
    }

    /// The controller's LAN address.
    pub closed spec fn address(self) -> Seq<char> {
        self.lan_ip@
    }

    /// A registry in which nothing runs.
    pub fn new(lan_ip: String) -> (manager: ProxyManager)
        ensures
            manager.wf(),
            manager@ == Map::<Seq<char>, ProxyView>::empty(),
            manager.address() == lan_ip@,
    {
        let manager = ProxyManager { proxies: Vec::new(), lan_ip };
        assert(manager@ =~= Map::<Seq<char>, ProxyView>::empty());
        manager
    }

    /// The place of the proxy with the key.
    fn index_of(&self, key: &str) -> (r: Option<usize>)
        requires
            self.wf(),
        ensures
            match r {
                Some(i) => i < self.proxies@.len() && self.proxies@[i as int].key@ == key@
                    && self@.dom().contains(key@) && self@[key@] == self.proxies@[i as int]@,
                None => !self@.dom().contains(key@),
            },
    {
        let mut i: usize = 0;
        while i < self.proxies.len()
            invariant
                self.wf(),
                i <= self.proxies.len(),
                forall|k: int| 0 <= k < i ==> (#[trigger] self.proxies@[k]).key@ != key@,
            decreases self.proxies.len() - i,
        {
            if same(self.proxies[i].key.as_str(), key) {
                proof {
                    let all = self.proxies@;
                    let at = choose|k: int| 0 <= k < all.len() && (#[trigger] all[k]).key@ == key@;
                    assert(all[i as int].key@ == key@);
                    assert(at == i);
                }
                return Some(i);
            }
            i += 1;
        }
        None
    }

    /// Asks for a proxy for `key` that forwards to `target`. One that runs otherwise
    /// than wanted leaves the registry.
    pub fn ensure_proxy(&mut self, key: &str, target: &str, protocol: &Protocol) -> (r: Ensured)
        requires
            old(self).wf(),
        ensures
            final(self).wf(),
            final(self).address() == old(self).address(),
            r == ensured(old(self)@, key@, target@, *protocol),
            final(self)@ == after_ensure(old(self)@, key@, target@, *protocol),
    {
        if let Some(i) = self.index_of(key) {
            let proxy = &self.proxies[i];
            if same(proxy.target.as_str(), target) && proxy.protocol == *protocol {
                return Ensured::Running(proxy.local_port);
            }
        }
        let stopped = self.stop_proxy(key);
        match stopped {
            Some(proxy) => Ensured::Start { stop: Some(proxy.local_port) },
            None => Ensured::Start { stop: None },
        }
    }

    /// Takes in that a proxy has been started.
    pub fn started(&mut self, key: &str, target: &str, protocol: &Protocol, local_port: u16)
        requires
            old(self).wf(),
        ensures
            final(self).wf(),
            final(self).address() == old(self).address(),
            final(self)@ == after_start(old(self)@, key@, target@, *protocol, local_port),
    {
        self.stop_proxy(key);
        let ghost before = self.proxies@;
        let ghost entry = ProxyView { local_port, target: target@, protocol: *protocol };
        assert(!registry(before).dom().contains(key@));
        self.proxies.push(
            Proxy { key: key.to_owned(), local_port, target: target.to_owned(), protocol: *protocol },
        );
        proof {
            let after = self.proxies@;
            assert forall|k: int| 0 <= k < before.len() implies (#[trigger] before[k]).key@
                != key@ by {}
            assert(distinct(after));
            assert(after.last()@ == entry);
            assert forall|k: Seq<char>|
                #![auto]
                registry(after).dom().contains(k) == registry(before).insert(
                    key@,
                    entry,
                ).dom().contains(k) by {
                if k == key@ {
                    assert(after[after.len() - 1].key@ == key@);
                } else if registry(before).dom().contains(k) {
                    let i = choose|i: int| 0 <= i < before.len() && (#[trigger] before[i]).key@ == k;
                    assert(after[i].key@ == k);
                } else if registry(after).dom().contains(k) {
                    let i = choose|i: int| 0 <= i < after.len() && (#[trigger] after[i]).key@ == k;
                    assert(before[i].key@ == k);
                }
            }
            assert forall|k: Seq<char>| registry(after).dom().contains(k) implies #[trigger] registry(
                after,
            )[k] == registry(before).insert(key@, entry)[k] by {
                let i = choose|i: int| 0 <= i < after.len() && (#[trigger] after[i]).key@ == k;
                if k == key@ {
                    assert(after[after.len() - 1].key@ == key@);
                    assert(i == after.len() - 1);
                } else {
                    assert(before[i].key@ == k);
                    let j = choose|j: int| 0 <= j < before.len() && (#[trigger] before[j]).key@ == k;
                    assert(after[j].key@ == k);
                    assert(i == j);
                }
            }
            assert(registry(after) =~= registry(before).insert(key@, entry));
        }
    }

    /// Takes the proxy with the key out of the registry, to be stopped.
    pub fn stop_proxy(&mut self, key: &str) -> (stopped: Option<Proxy>)
        requires
            old(self).wf(),
        ensures
            final(self).wf(),
            final(self).address() == old(self).address(),
            final(self)@ == old(self)@.remove(key@),
            match stopped {
                Some(proxy) => proxy.key@ == key@ && old(self)@.dom().contains(key@)
                    && proxy@ == old(self)@[key@],
                None => !old(self)@.dom().contains(key@),
            },
    {
        match self.index_of(key) {
            Some(at) => {
                let ghost before = self.proxies@;
                let proxy = self.proxies.remove(at);
                proof {
                    let after = self.proxies@;
                    let at = at as int;
                    assert(after =~= before.remove(at));
                    assert forall|i: int, j: int| 0 <= i < j < after.len() implies (
                    #[trigger] after[i]).key@ != (#[trigger] after[j]).key@ by {
                        let a = if i < at { i } else { i + 1 };
                        let b = if j < at { j } else { j + 1 };
                        assert(after[i] == before[a] && after[j] == before[b]);
                        assert(before[a].key@ != before[b].key@);
                    }
                    assert forall|k: Seq<char>|
                        #![auto]
                        registry(after).dom().contains(k) == registry(before).remove(
                            key@,
                        ).dom().contains(k) by {
                        if registry(after).dom().contains(k) {
                            let i = choose|i: int|
                                0 <= i < after.len() && (#[trigger] after[i]).key@ == k;
                            let a = if i < at { i } else { i + 1 };
                            assert(before[a].key@ == k);
                            assert(before[at].key@ == key@);
                            assert(a != at);
                        } else if registry(before).dom().contains(k) && k != key@ {
                            let i = choose|i: int|
                                0 <= i < before.len() && (#[trigger] before[i]).key@ == k;
                            let a = if i < at { i } else { i - 1 };
                            assert(after[a].key@ == k);
                        }
                    }
                    assert forall|k: Seq<char>|
                        registry(after).dom().contains(k) implies #[trigger] registry(after)[k]
                        == registry(before).remove(key@)[k] by {
                        let i = choose|i: int|
                            0 <= i < after.len() && (#[trigger] after[i]).key@ == k;
                        let a = if i < at { i } else { i + 1 };
                        assert(before[a].key@ == k);
                        let j = choose|j: int|
                            0 <= j < before.len() && (#[trigger] before[j]).key@ == k;
                        assert(a == j);
                    }
                    assert(registry(after) =~= registry(before).remove(key@));
                }
                Some(proxy)
            },
            None => {
                assert(self@.remove(key@) =~= self@);
                None
            },
        }
    }

    /// The local port of the proxy with the key, if one runs.
    pub fn get_port(&self, key: &str) -> (port: Option<u16>)
        requires
            self.wf(),
        ensures
            port == port_of(self@, key@),
    {
        match self.index_of(key) {
            Some(i) => Some(self.proxies[i].local_port),
            None => None,
        }
    }

    /// The keys of all running proxies, each once.
    pub fn active_keys(&self) -> (keys: Vec<String>)
        requires
            self.wf(),
        ensures
            views(keys@).no_duplicates(),
            views(keys@).to_set() == self@.dom(),
    {
        let mut keys: Vec<String> = Vec::new();
        let mut i: usize = 0;
        while i < self.proxies.len()
            invariant
                i <= self.proxies.len(),
                keys.len() == i,
                forall|k: int| 0 <= k < i ==> (#[trigger] keys@[k])@ == self.proxies@[k].key@,
            decreases self.proxies.len() - i,
        {
            keys.push(self.proxies[i].key.clone());
            i += 1;
        }
        proof {
            let v = views(keys@);
            assert forall|k: int| 0 <= k < v.len() implies #[trigger] v[k] == self.proxies@[k].key@ by {
                assert(v[k] == keys@[k]@);
            }
            assert forall|a: int, b: int| 0 <= a < v.len() && 0 <= b < v.len() && a != b implies v[a]
                != v[b] by {
                if a < b {
                    assert(self.proxies@[a].key@ != self.proxies@[b].key@);
                } else {
                    assert(self.proxies@[b].key@ != self.proxies@[a].key@);
                }
            }
            assert forall|k: Seq<char>| v.to_set().contains(k) == #[trigger] self@.dom().contains(
                k,
            ) by {
                if v.to_set().contains(k) {
                    let a = choose|a: int| 0 <= a < v.len() && v[a] == k;
                    assert(self.proxies@[a].key@ == k);
                }
                if self@.dom().contains(k) {
                    let a = choose|a: int|
                        0 <= a < self.proxies@.len() && (#[trigger] self.proxies@[a]).key@ == k;
                    assert(v[a] == k);
                }
            }
            assert(v.to_set() =~= self@.dom());
        }
        keys
    }
}

/// A proxy that has been started runs: asked for again, it keeps its local port.
pub proof fn law_started_proxy_runs(
    proxies: Map<Seq<char>, ProxyView>,
    key: Seq<char>,
    target: Seq<char>,
    protocol: Protocol,
    local_port: u16,
)
    ensures
        ({
            let started = after_start(proxies, key, target, protocol, local_port);
            &&& ensured(started, key, target, protocol) == Ensured::Running(local_port)
            &&& after_ensure(started, key, target, protocol) == started
            &&& port_of(started, key) == Some(local_port)
        }),
{
}

/// A proxy that is asked for with another target or protocol is started anew, after the
/// old one has been stopped.
pub proof fn law_changed_proxy_restarts(
    proxies: Map<Seq<char>, ProxyView>,
    key: Seq<char>,
    target: Seq<char>,
    protocol: Protocol,
)
    requires
        proxies.dom().contains(key),
        proxies[key].target != target || proxies[key].protocol != protocol,
    ensures
        ensured(proxies, key, target, protocol) == (Ensured::Start {
            stop: Some(proxies[key].local_port),
        }),
        port_of(after_ensure(proxies, key, target, protocol), key) is None,
{
}

/// A proxy that has been stopped has no local port, and what is done for one key
/// leaves the proxies of all others alone.
pub proof fn law_keys_are_independent(
    proxies: Map<Seq<char>, ProxyView>,
    key: Seq<char>,
    target: Seq<char>,
    protocol: Protocol,
    local_port: u16,
    other: Seq<char>,
)
    requires
        key != other,
    ensures
        port_of(proxies.remove(key), key) is None,
        port_of(proxies.remove(key), other) == port_of(proxies, other),
        port_of(after_ensure(proxies, key, target, protocol), other) == port_of(proxies, other),
        port_of(after_start(proxies, key, target, protocol, local_port), other) == port_of(
            proxies,
            other,
        ),
{
}

/// The error for a listener that could not be bound.
pub fn bind_error(protocol: &Protocol, cause: &str) -> (message: String)
    ensures
        message@ == (match protocol {
            Protocol::Tcp => "Failed to bind TCP proxy listener: "@,
            Protocol::Udp => "Failed to bind UDP proxy socket: "@,
        }) + cause@,
{
    match protocol {
        Protocol::Tcp => "Failed to bind TCP proxy listener: ".to_owned().concat(cause),
        Protocol::Udp => "Failed to bind UDP proxy socket: ".to_owned().concat(cause),
    }
}

/// The error for a listener whose local address could not be read.
pub fn local_addr_error(cause: &str) -> (message: String)
    ensures
        message@ == "Failed to get local addr: "@ + cause@,
{
    "Failed to get local addr: ".to_owned().concat(cause)
}

// ---------------------------------------------------------------------------
// The loops
// ---------------------------------------------------------------------------

/// What a listening TCP proxy sees.
#[derive(Debug, Clone, Copy, PartialEq, Eq, Structural)]
pub enum TcpEvent {
    Accepted,
    AcceptFailed,
    Shutdown,
}

/// Whether a TCP proxy goes on: it serves each connection, and ends when it cannot
/// accept or is told to shut down.
pub fn tcp_goes_on(event: TcpEvent) -> (r: bool)
    ensures
        r == (event == TcpEvent::Accepted),
{
    match event {
        TcpEvent::Accepted => true,
        _ => false,
    }
}

/// Seconds without an answer after which a UDP client is forgotten.
pub const UDP_IDLE_SECS: u64 = 60;

/// The clients of a UDP proxy. Each has an upstream socket of its own, over which its
/// datagrams go to the target and the answers come back.
pub struct UdpClients {
    clients: Vec<String>,
}

/// What a listening UDP proxy sees.
#[derive(Debug, Clone)]
pub enum UdpEvent {
    /// A datagram from the client with this address.
    Datagram(String),
    RecvFailed,
    Shutdown,
}

/// What a UDP proxy does next.
#[derive(Debug, Clone, Copy, PartialEq, Eq, Structural)]
pub enum UdpAction {
    /// Drop the datagram.
    Drop,
    /// Send the datagram to the target from the client's socket.
    Forward,
    /// Bind a socket for the client, and see [`UdpClients::opened`].
    Open,
    /// End the proxy.
    Stop,
}

/// What to do on an event: datagrams are dropped while the target is no address,
/// those of known clients are forwarded, and a new client gets a socket first.
pub open spec fn udp_action(
    clients: Set<Seq<char>>,
    event: UdpEvent,
    target_is_address: bool,
) -> UdpAction {
    match event {
        UdpEvent::Datagram(client) => if !target_is_address {
            UdpAction::Drop
        } else if clients.contains(client@) {
            UdpAction::Forward
        } else {
            UdpAction::Open
        },
        _ => UdpAction::Stop,
    }
}

impl View for UdpClients {
    type V = Set<Seq<char>>;

    closed spec fn view(&self) -> Set<Seq<char>> {
        views(self.clients@).to_set()
    }
}

impl UdpClients {
    /// Every client is listed once.
    pub closed spec fn wf(self) -> bool {
        views(self.clients@).no_duplicates()
    }

    /// No clients.
    pub fn new() -> (clients: UdpClients)
        ensures
            clients.wf(),
            clients@ == Set::<Seq<char>>::empty(),
    {
        let clients = UdpClients { clients: Vec::new() };
        assert(clients@ =~= Set::<Seq<char>>::empty());
        clients
    }

    /// Decides what to do on an event.
    pub fn on_event(&self, event: &UdpEvent, target_is_address: bool) -> (action: UdpAction)
        ensures
            action == udp_action(self@, *event, target_is_address),
    {
        match event {
            UdpEvent::Datagram(client) => {
                if !target_is_address {
                    UdpAction::Drop
                } else if among(&self.clients, client.as_str()) {
                    UdpAction::Forward
                } else {
                    UdpAction::Open
                }
            },
            _ => UdpAction::Stop,
        }
    }

    /// Takes in whether a socket could be bound for a new client: with one the datagram
    /// is forwarded, without one it is dropped.
    pub fn opened(&mut self, client: &str, bound: bool) -> (action: UdpAction)
        requires
            old(self).wf(),
        ensures
            final(self).wf(),
            action == if bound {
                UdpAction::Forward
            } else {
                UdpAction::Drop
            },
            final(self)@ == if bound {
                old(self)@.insert(client@)
            } else {
                old(self)@
            },
    {
        if !bound {
            return UdpAction::Drop;
        }
        if !among(&self.clients, client) {
            let ghost before = views(self.clients@);
            self.clients.push(client.to_owned());
            proof {
                assert(views(self.clients@) =~= before.push(client@));
                lemma_push(before, client@);
            }
        } else {
            assert(self@.insert(client@) =~= self@);
        }
        UdpAction::Forward
    }

    /// Forgets a client whose socket has been closed.
    pub fn closed(&mut self, client: &str)
        requires
            old(self).wf(),
        ensures
            final(self).wf(),
            final(self)@ == old(self)@.remove(client@),
    {
        let ghost before = views(self.clients@);
        let mut i: usize = 0;
        while i < self.clients.len()
            invariant
                i <= self.clients.len(),
                before == views(self.clients@),
                before == views(old(self).clients@),
                before.no_duplicates(),
                forall|k: int| 0 <= k < i ==> #[trigger] before[k] != client@,
            decreases self.clients.len() - i,
        {
            assert(before[i as int] == self.clients[i as int]@);
            if same(self.clients[i].as_str(), client) {
                self.clients.remove(i);
                proof {
                    assert(views(self.clients@) =~= before.remove(i as int));
                    lemma_remove(before, i as int);
                }
                return;
            }
            i += 1;
        }
        assert(!before.contains(client@));
        assert(before.to_set().remove(client@) =~= before.to_set());
    }
}

/// What the socket of a UDP client sees.
#[derive(Debug, Clone, Copy, PartialEq, Eq, Structural)]
pub enum RelayEvent {
    /// An answer arrived and was sent on to the client.
    Relayed,
    /// An answer arrived and could not be sent on.
    SendFailed,
    RecvFailed,
    /// Nothing arrived for [`UDP_IDLE_SECS`].
    Idle,
}

/// Whether the socket of a UDP client stays open.
pub fn relay_goes_on(event: RelayEvent) -> (r: bool)
    ensures
        r == (event == RelayEvent::Relayed),
{
    match event {
        RelayEvent::Relayed => true,
        _ => false,
    }
}

/// A client that got a socket is known until the socket is closed; then it gets another.
pub proof fn law_client_keeps_its_socket(clients: Set<Seq<char>>, client: String)
    ensures
        udp_action(clients.insert(client@), UdpEvent::Datagram(client), true) == UdpAction::Forward,
        udp_action(clients.remove(client@), UdpEvent::Datagram(client), true) == UdpAction::Open,
{
}

} // verus!
