//! Port forwarding for annotated Services and Pods: what an annotation asks for, and
//! which `PortMapping` resources are written and deleted for it.

use crate::crds::port_mapping::{PortMappingSpec, PortMappingSpecView, Protocol};
use crate::entries::{entry_views, find_entry, lookup, Entry};
use crate::text::{
    among, as_str_option, cut_once, decimal, is_digit, law_decimal_injective, lemma_decimal, number,
    opt, opt_str, parse_u16, parse_unsigned, pieces, same, split, split_once, trim, trimmed, views,
};
use vstd::prelude::*;
use vstd::string::*;

verus! {

/// The namespace of an object that names none.
pub const DEFAULT_NAMESPACE: &'static str = "default";

// ---------------------------------------------------------------------------
// Annotations
// ---------------------------------------------------------------------------

/// The annotation that asks for port forwarding.
pub const PORT_FORWARD_ANNOTATION: &'static str = "upnp-controller.io/port-forward";

/// A port that a Service offers.
#[derive(Debug, Clone)]
pub struct ServicePort {
    pub port: i32,
    pub protocol: Option<String>,
}

/// A port that a container of a Pod listens on.
#[derive(Debug, Clone)]
pub struct ContainerPort {
    pub container_port: i32,
    pub protocol: Option<String>,
}

/// The port number that the low 16 bits of `port` hold.
pub open spec fn port_number(port: i32) -> u16 {
    (port as int % 65536) as u16
}

/// The protocol that the cluster's name for it stands for: UDP for `UDP`, TCP for
/// anything else and for none.
pub open spec fn k8s_protocol(name: Option<Seq<char>>) -> Protocol {
    if name == Some("UDP"@) {
        Protocol::Udp
    } else {
        Protocol::Tcp
    }
}

/// The ports of a Service with their protocols.
pub open spec fn service_table(ports: Seq<ServicePort>) -> Seq<(u16, Protocol)> {
    ports.map_values(|p: ServicePort| (port_number(p.port), k8s_protocol(opt(p.protocol))))
}

/// The ports of containers with their protocols.
pub open spec fn container_table(ports: Seq<ContainerPort>) -> Seq<(u16, Protocol)> {
    ports.map_values(
        |p: ContainerPort| (port_number(p.container_port), k8s_protocol(opt(p.protocol))),
    )
}

/// The protocol of the first entry for `port`.
pub open spec fn declared(table: Seq<(u16, Protocol)>, port: u16) -> Option<Protocol>
    decreases table.len(),
{
    if table.len() == 0 {
        None
    } else if table[0].0 == port {
        Some(table[0].1)
    } else {
        declared(table.drop_first(), port)
    }
}

/// The port that `s` denotes.
pub open spec fn port_in(s: Seq<char>) -> Option<u16> {
    match parse_unsigned(s, u16::MAX as nat) {
        Some(n) => Some(n as u16),
        None => None,
    }
}

/// What one part of an annotation asks for: `external:own` maps an external port to an
/// own port, declared or not; a bare port that is declared is mapped to itself. Any
/// other part asks for nothing.
pub open spec fn forward_of(part: Seq<char>, table: Seq<(u16, Protocol)>) -> Option<
    (u16, u16, Protocol),
> {
    let part = trim(part);
    match split_once(part, ':') {
        Some((external, own)) => match (port_in(trim(external)), port_in(trim(own))) {
            (Some(e), Some(o)) => Some(
                (
                    e,
                    o,
                    match declared(table, o) {
                        Some(protocol) => protocol,
                        None => Protocol::Tcp,
                    },
                ),
            ),
            _ => None,
        },
        None => match port_in(part) {
            Some(port) => match declared(table, port) {
                Some(protocol) => Some((port, port, protocol)),
                None => None,
            },
            None => None,
        },
    }
}

/// What the parts of an annotation ask for, in order.
pub open spec fn forwards(parts: Seq<Seq<char>>, table: Seq<(u16, Protocol)>) -> Seq<
    (u16, u16, Protocol),
>
    decreases parts.len(),
{
    if parts.len() == 0 {
        Seq::empty()
    } else {
        let earlier = forwards(parts.drop_last(), table);
        match forward_of(parts.last(), table) {
            Some(forward) => earlier.push(forward),
            None => earlier,
        }
    }
}

/// Every declared port, mapped to itself.
pub open spec fn all_declared(table: Seq<(u16, Protocol)>) -> Seq<(u16, u16, Protocol)> {
    table.map_values(|entry: (u16, Protocol)| (entry.0, entry.0, entry.1))
}

/// What an annotation asks for: `true` asks for every declared port, anything else is
/// a list of parts with commas between them.
pub open spec fn annotated(value: Seq<char>, table: Seq<(u16, Protocol)>) -> Seq<
    (u16, u16, Protocol),
> {
    if value == "true"@ {
        all_declared(table)
    } else {
        forwards(split(value, ','), table)
    }
}

/// The port number that the low 16 bits of `port` hold.
fn port_bits(port: i32) -> (n: u16)
    ensures
        n == port_number(port),
{
    let low: i64 = port as i64 % 65536;
    if low < 0 {
        (low + 65536) as u16
    } else {
        low as u16
    }
}

/// The protocol that the cluster's name for it stands for.
pub fn parse_k8s_protocol(proto: Option<&str>) -> (protocol: Protocol)
    ensures
        protocol == k8s_protocol(opt_str(proto)),
{
    match proto {
        Some(name) => {
            if same(name, "UDP") {
                Protocol::Udp
            } else {
                Protocol::Tcp
            }
        },
        None => Protocol::Tcp,
    }
}

/// The protocol of the first entry for `port`.
fn lookup_protocol(table: &Vec<(u16, Protocol)>, port: u16) -> (protocol: Option<Protocol>)
    ensures
        protocol == declared(table@, port),
{
    let mut i: usize = 0;
    assert(table@.skip(0) =~= table@);
    while i < table.len()
        invariant
            i <= table.len(),
            declared(table@, port) == declared(table@.skip(i as int), port),
        decreases table.len() - i,
    {
        assert(table@.skip(i as int).drop_first() =~= table@.skip(i + 1));
        if table[i].0 == port {
            return Some(table[i].1);
        }
        i += 1;
    }
    None
}

/// What one part of an annotation asks for.
fn parse_part(part: &str, table: &Vec<(u16, Protocol)>) -> (forward: Option<(u16, u16, Protocol)>)
    ensures
        forward == forward_of(part@, table@),
{
    let part = trimmed(part);
    match cut_once(part, ':') {
        Some((external, own)) => {
            match (parse_u16(trimmed(external)), parse_u16(trimmed(own))) {
                (Some(e), Some(o)) => {
                    let protocol = match lookup_protocol(table, o) {
                        Some(protocol) => protocol,
                        None => Protocol::Tcp,
                    };
                    Some((e, o, protocol))
                },
                _ => None,
            }
        },
        None => match parse_u16(part) {
            Some(port) => match lookup_protocol(table, port) {
                Some(protocol) => Some((port, port, protocol)),
                None => None,
            },
            None => None,
        },
    }
}

/// Reads a list such as `443,80` or `8080:80,8443:443`, against the ports that the
/// object declares.
pub fn parse_port_list(value: &str, table: &Vec<(u16, Protocol)>) -> (result: Vec<
    (u16, u16, Protocol),
>)
    ensures
        result@ == forwards(split(value@, ','), table@),
{
    let parts = pieces(value, ',');
    let ghost all = views(parts@);
    let mut result: Vec<(u16, u16, Protocol)> = Vec::new();
    let mut i: usize = 0;
    assert(all.take(0) =~= Seq::empty());
    while i < parts.len()
        invariant
            i <= parts.len(),
            all == views(parts@),
            result@ == forwards(all.take(i as int), table@),
        decreases parts.len() - i,
    {
        assert(all.take(i + 1).drop_last() =~= all.take(i as int));
        assert(all.take(i + 1).last() == parts[i as int]@);
        if let Some(forward) = parse_part(parts[i].as_str(), table) {
            result.push(forward);
        }
        i += 1;
    }
    assert(all.take(i as int) =~= all);
    result
}

/// What an annotation asks for, against the ports that the object declares.
fn parse_annotation(value: &str, table: &Vec<(u16, Protocol)>) -> (result: Vec<
    (u16, u16, Protocol),
>)
    ensures
        result@ == annotated(value@, table@),
{
    if !same(value, "true") {
        return parse_port_list(value, table);
    }
    let mut result: Vec<(u16, u16, Protocol)> = Vec::new();
    let mut i: usize = 0;
    while i < table.len()
        invariant
            i <= table.len(),
            result@ == all_declared(table@.take(i as int)),
        decreases table.len() - i,
    {
        let entry = table[i];
        result.push((entry.0, entry.0, entry.1));
        i += 1;
        assert(result@ =~= all_declared(table@.take(i as int)));
    }
    assert(table@.take(i as int) =~= table@);
    result
}

/// The ports that the annotation of a Service asks for: the external port, the
/// Service's own port and the protocol of each.
pub fn parse_service_annotation(value: &str, service_ports: &[ServicePort]) -> (result: Vec<
    (u16, u16, Protocol),
>)
    ensures
        result@ == annotated(value@, service_table(service_ports@)),
{
    let mut table: Vec<(u16, Protocol)> = Vec::new();
    let mut i: usize = 0;
    while i < service_ports.len()
        invariant
            i <= service_ports.len(),
            table@ == service_table(service_ports@.take(i as int)),
        decreases service_ports.len() - i,
    {
        let port = &service_ports[i];
        table.push((port_bits(port.port), parse_k8s_protocol(as_str_option(&port.protocol))));
        i += 1;
        assert(table@ =~= service_table(service_ports@.take(i as int)));
    }
    assert(service_ports@.take(i as int) =~= service_ports@);
    parse_annotation(value, &table)
}

/// The ports that the annotation of a Pod asks for: the external port, the
/// container's own port and the protocol of each.
pub fn parse_pod_annotation(value: &str, container_ports: &[ContainerPort]) -> (result: Vec<
    (u16, u16, Protocol),
>)
    ensures
        result@ == annotated(value@, container_table(container_ports@)),
{
    let mut table: Vec<(u16, Protocol)> = Vec::new();
    let mut i: usize = 0;
    while i < container_ports.len()
        invariant
            i <= container_ports.len(),
            table@ == container_table(container_ports@.take(i as int)),
        decreases container_ports.len() - i,
    {
        let port = &container_ports[i];
        table.push(
            (port_bits(port.container_port), parse_k8s_protocol(as_str_option(&port.protocol))),
        );
        i += 1;
        assert(table@ =~= container_table(container_ports@.take(i as int)));
    }
    assert(container_ports@.take(i as int) =~= container_ports@);
    parse_annotation(value, &table)
}

// ---------------------------------------------------------------------------
// Mappings that Services and Pods own
// ---------------------------------------------------------------------------

/// The label on a mapping that is managed for another object.
pub const MANAGED_BY_LABEL: &'static str = "upnp-controller.io/managed-by";

/// The value of that label.
pub const MANAGED_BY_VALUE: &'static str = "service-controller";

/// Seconds until an object with managed mappings is looked at again.
pub const MANAGED_REQUEUE_SECS: u64 = 60;

/// Seconds until an object without an address is looked at again.
pub const ADDRESS_REQUEUE_SECS: u64 = 5;

/// The protocol's name in the name of a managed mapping.
pub open spec fn protocol_suffix(protocol: Protocol) -> Seq<char> {
    match protocol {
        Protocol::Tcp => "tcp"@,
        Protocol::Udp => "udp"@,
    }
}

/// The name of the mapping that an object owns for an external port and a protocol.
pub open spec fn owned_name(
    ns: Seq<char>,
    name: Seq<char>,
    external_port: u16,
    protocol: Protocol,
) -> Seq<char> {
    ns + "-"@ + name + "-"@ + decimal(external_port as nat) + "-"@ + protocol_suffix(protocol)
}

/// The name of the mapping that an object owns for an external port and a protocol.
pub fn pm_name_for_owner(ns: &str, name: &str, external_port: u16, protocol: &Protocol) -> (r:
    String)
    ensures
        r@ == owned_name(ns@, name@, external_port, *protocol),
{
    let proto = match protocol {
        Protocol::Tcp => "tcp",
        Protocol::Udp => "udp",
    };
    ns.to_owned().concat("-").concat(name).concat("-").concat(
        number(external_port as u64).as_str(),
    ).concat("-").concat(proto)
}

/// One object owns mappings of different names for different ports or protocols.
pub proof fn law_owned_names_differ(
    ns: Seq<char>,
    name: Seq<char>,
    port: u16,
    protocol: Protocol,
    other_port: u16,
    other_protocol: Protocol,
)
    ensures
        (owned_name(ns, name, port, protocol) == owned_name(ns, name, other_port, other_protocol))
            == (port == other_port && protocol == other_protocol),
{
    reveal_strlit("-");
    reveal_strlit("tcp");
    reveal_strlit("udp");
    let a = owned_name(ns, name, port, protocol);
    let b = owned_name(ns, name, other_port, other_protocol);
    if a == b {
        let size = a.len() as int;
        assert(a[size - 3] == protocol_suffix(protocol)[0]);
        assert(b[size - 3] == protocol_suffix(other_protocol)[0]);
        let start = (ns.len() + name.len() + 2) as int;
        assert(a.subrange(start, size - 4) =~= decimal(port as nat));
        assert(b.subrange(start, size - 4) =~= decimal(other_port as nat));
        law_decimal_injective(port as nat, other_port as nat);
    }
}

/// Decimal notation holds no dash.
proof fn lemma_decimal_has_no_dash(n: nat)
    ensures
        forall|k: int| 0 <= k < decimal(n).len() ==> #[trigger] decimal(n)[k] != '-',
{
    lemma_decimal(n);
    assert forall|k: int| 0 <= k < decimal(n).len() implies #[trigger] decimal(n)[k] != '-' by {
        assert(is_digit(decimal(n)[k]));
    }
}

/// Within one namespace a name stands for one mapping: two mappings have the same name
/// exactly when they agree in their owner's name, the external port and the protocol.
pub proof fn law_owned_name_identifies(
    ns: Seq<char>,
    name: Seq<char>,
    port: u16,
    protocol: Protocol,
    other_name: Seq<char>,
    other_port: u16,
    other_protocol: Protocol,
)
    ensures
        (owned_name(ns, name, port, protocol) == owned_name(
            ns,
            other_name,
            other_port,
            other_protocol,
        )) == (name == other_name && port == other_port && protocol == other_protocol),
{
    reveal_strlit("-");
    reveal_strlit("tcp");
    reveal_strlit("udp");
    let a = owned_name(ns, name, port, protocol);
    let b = owned_name(ns, other_name, other_port, other_protocol);
    if a == b {
        let size = a.len() as int;
        let p = decimal(port as nat);
        let q = decimal(other_port as nat);
        let start = (ns.len() + 1) as int;
        let dash = start + name.len();
        let other_dash = start + other_name.len();
        lemma_decimal_has_no_dash(port as nat);
        lemma_decimal_has_no_dash(other_port as nat);
        assert(a[dash] == '-');
        assert(b[other_dash] == '-');
        if dash < other_dash {
            assert(other_dash - dash - 1 < p.len());
            assert(a[other_dash] == p[other_dash - dash - 1]);
        }
        if other_dash < dash {
            assert(dash - other_dash - 1 < q.len());
            assert(b[dash] == q[dash - other_dash - 1]);
        }
        assert(a.subrange(start, dash) =~= name);
        assert(b.subrange(start, other_dash) =~= other_name);
        law_owned_names_differ(ns, name, port, protocol, other_port, other_protocol);
    }
}

/// The selector for managed mappings.
pub fn managed_selector() -> (selector: String)
    ensures
        selector@ == MANAGED_BY_LABEL@ + "="@ + MANAGED_BY_VALUE@,
{
    MANAGED_BY_LABEL.to_owned().concat("=").concat(MANAGED_BY_VALUE)
}

/// A managed mapping, with the identities of its owners.
#[derive(Debug, Clone)]
pub struct ManagedMapping {
    pub name: String,
    pub owner_uids: Vec<String>,
}

/// The view of a [`ManagedMapping`].
pub struct ManagedMappingView {
    pub name: Seq<char>,
    pub owner_uids: Seq<Seq<char>>,
}

impl View for ManagedMapping {
    type V = ManagedMappingView;

    open spec fn view(&self) -> ManagedMappingView {
        ManagedMappingView { name: self.name@, owner_uids: views(self.owner_uids@) }
    }
}

/// The views of a list of managed mappings.
pub open spec fn managed_views(listed: Seq<ManagedMapping>) -> Seq<ManagedMappingView> {
    listed.map_values(|m: ManagedMapping| m@)
}

/// The names of the mappings that have `uid` among their owners, in order.
pub open spec fn owned_by(listed: Seq<ManagedMappingView>, uid: Seq<char>) -> Seq<Seq<char>>
    decreases listed.len(),
{
    if listed.len() == 0 {
        Seq::empty()
    } else {
        let earlier = owned_by(listed.drop_last(), uid);
        if listed.last().owner_uids.contains(uid) {
            earlier.push(listed.last().name)
        } else {
            earlier
        }
    }
}

/// The names of the listed mappings that have `owner_uid` among their owners.
pub fn list_owned_port_mappings(listed: &Vec<ManagedMapping>, owner_uid: &str) -> (owned: Vec<
    String,
>)
    ensures
        views(owned@) == owned_by(managed_views(listed@), owner_uid@),
{
    let ghost all = managed_views(listed@);
    let mut owned: Vec<String> = Vec::new();
    let mut i: usize = 0;
    assert(all.take(0) =~= Seq::empty());
    while i < listed.len()
        invariant
            i <= listed.len(),
            all == managed_views(listed@),
            views(owned@) =~= owned_by(all.take(i as int), owner_uid@),
        decreases listed.len() - i,
    {
        assert(all.take(i + 1).drop_last() =~= all.take(i as int));
        assert(all.take(i + 1).last() == listed[i as int]@);
        if among(&listed[i].owner_uids, owner_uid) {
            let ghost earlier = owned@;
            owned.push(listed[i].name.clone());
            assert(views(owned@) =~= views(earlier).push(listed[i as int].name@));
        }
        i += 1;
    }
    assert(all.take(i as int) =~= all);
    owned
}

/// The names of the mappings that are wanted.
pub open spec fn wanted_names(
    ns: Seq<char>,
    owner: Seq<char>,
    desired: Seq<(u16, u16, Protocol)>,
) -> Seq<Seq<char>> {
    desired.map_values(|d: (u16, u16, Protocol)| owned_name(ns, owner, d.0, d.2))
}

/// The names in `owned` that are not in `wanted`, in order.
pub open spec fn stale_names(owned: Seq<Seq<char>>, wanted: Seq<Seq<char>>) -> Seq<Seq<char>>
    decreases owned.len(),
{
    if owned.len() == 0 {
        Seq::empty()
    } else {
        let earlier = stale_names(owned.drop_last(), wanted);
        if wanted.contains(owned.last()) {
            earlier
        } else {
            earlier.push(owned.last())
        }
    }
}

/// The names in `owned` that are not in `wanted`.
fn not_wanted(owned: &Vec<String>, wanted: &Vec<String>) -> (stale: Vec<String>)
    ensures
        views(stale@) == stale_names(views(owned@), views(wanted@)),
{
    let ghost all = views(owned@);
    let mut stale: Vec<String> = Vec::new();
    let mut i: usize = 0;
    assert(all.take(0) =~= Seq::empty());
    while i < owned.len()
        invariant
            i <= owned.len(),
            all == views(owned@),
            views(stale@) =~= stale_names(all.take(i as int), views(wanted@)),
        decreases owned.len() - i,
    {
        assert(all.take(i + 1).drop_last() =~= all.take(i as int));
        assert(all.take(i + 1).last() == owned[i as int]@);
        if !among(wanted, owned[i].as_str()) {
            let ghost earlier = stale@;
            stale.push(owned[i].clone());
            assert(views(stale@) =~= views(earlier).push(owned[i as int]@));
        }
        i += 1;
    }
    assert(all.take(i as int) =~= all);
    stale
}

/// The object that owns managed mappings.
#[derive(Debug, Clone)]
pub struct Owner {
    pub api_version: String,
    pub kind: String,
    pub namespace: String,
    pub name: String,
    pub uid: String,
}

/// The view of an [`Owner`].
pub struct OwnerView {
    pub api_version: Seq<char>,
    pub kind: Seq<char>,
    pub namespace: Seq<char>,
    pub name: Seq<char>,
    pub uid: Seq<char>,
}

impl View for Owner {
    type V = OwnerView;

    open spec fn view(&self) -> OwnerView {
        OwnerView {
            api_version: self.api_version@,
            kind: self.kind@,
            namespace: self.namespace@,
            name: self.name@,
            uid: self.uid@,
        }
    }
}

/// The reference from a managed mapping to its owner.
#[derive(Debug, Clone)]
pub struct OwnerReference {
    pub api_version: String,
    pub kind: String,
    pub name: String,
    pub uid: String,
    pub controller: bool,
    pub block_owner_deletion: bool,
}

/// The view of an [`OwnerReference`].
pub struct OwnerReferenceView {
    pub api_version: Seq<char>,
    pub kind: Seq<char>,
    pub name: Seq<char>,
    pub uid: Seq<char>,
    pub controller: bool,
    pub block_owner_deletion: bool,
}

impl View for OwnerReference {
    type V = OwnerReferenceView;

    open spec fn view(&self) -> OwnerReferenceView {
        OwnerReferenceView {
            api_version: self.api_version@,
            kind: self.kind@,
            name: self.name@,
            uid: self.uid@,
            controller: self.controller,
            block_owner_deletion: self.block_owner_deletion,
        }
    }
}

/// A managed mapping to be written.
#[derive(Debug, Clone)]
pub struct Manifest {
    pub name: String,
    pub namespace: String,
    /// The value of the label [`MANAGED_BY_LABEL`].
    pub managed_by: String,
    pub owner: OwnerReference,
    pub spec: PortMappingSpec,
}

/// The view of a [`Manifest`].
pub struct ManifestView {
    pub name: Seq<char>,
    pub namespace: Seq<char>,
    pub managed_by: Seq<char>,
    pub owner: OwnerReferenceView,
    pub spec: PortMappingSpecView,
}

impl View for Manifest {
    type V = ManifestView;

    open spec fn view(&self) -> ManifestView {
        ManifestView {
            name: self.name@,
            namespace: self.namespace@,
            managed_by: self.managed_by@,
            owner: self.owner@,
            spec: self.spec@,
        }
    }
}

/// The description of a managed mapping.
pub open spec fn managed_description(ns: Seq<char>, owner: Seq<char>) -> Seq<char> {
    "auto:"@ + ns + "/"@ + owner
}

/// The managed mapping for one wanted port: it lies in its owner's namespace, carries
/// the managed-by label, and names its owner as its controller.
pub open spec fn manifest_for(
    owner: OwnerView,
    ip: Seq<char>,
    wanted: (u16, u16, Protocol),
) -> ManifestView {
    ManifestView {
        name: owned_name(owner.namespace, owner.name, wanted.0, wanted.2),
        namespace: owner.namespace,
        managed_by: MANAGED_BY_VALUE@,
        owner: OwnerReferenceView {
            api_version: owner.api_version,
            kind: owner.kind,
            name: owner.name,
            uid: owner.uid,
            controller: true,
            block_owner_deletion: true,
        },
        spec: PortMappingSpecView {
            external_port: wanted.0,
            internal_host: ip,
            internal_port: wanted.1,
            protocol: wanted.2,
            description: Some(managed_description(owner.namespace, owner.name)),
        },
    }
}

/// The managed mappings for all wanted ports.
pub open spec fn manifests_for(
    owner: OwnerView,
    ip: Seq<char>,
    desired: Seq<(u16, u16, Protocol)>,
) -> Seq<ManifestView> {
    desired.map_values(|d: (u16, u16, Protocol)| manifest_for(owner, ip, d))
}

/// The views of a list of manifests.
pub open spec fn manifest_views(manifests: Seq<Manifest>) -> Seq<ManifestView> {
    manifests.map_values(|m: Manifest| m@)
}

/// What to do about the mappings that an object owns.
#[derive(Debug, Clone)]
pub enum ManagedPlan {
    /// Nothing until the object changes.
    Leave,
    /// Delete these mappings, and nothing more until the object changes.
    Remove(Vec<String>),
    /// Look again after so many seconds.
    Retry(u64),
    /// Write these mappings, delete the stale ones, and look again after
    /// [`MANAGED_REQUEUE_SECS`].
    Apply { manifests: Vec<Manifest>, stale: Vec<String> },
}

/// The view of a [`ManagedPlan`].
pub enum ManagedPlanView {
    Leave,
    Remove(Seq<Seq<char>>),
    Retry(u64),
    Apply { manifests: Seq<ManifestView>, stale: Seq<Seq<char>> },
}

impl View for ManagedPlan {
    type V = ManagedPlanView;

    open spec fn view(&self) -> ManagedPlanView {
        match *self {
            ManagedPlan::Leave => ManagedPlanView::Leave,
            ManagedPlan::Remove(names) => ManagedPlanView::Remove(views(names@)),
            ManagedPlan::Retry(secs) => ManagedPlanView::Retry(secs),
            ManagedPlan::Apply { manifests, stale } => ManagedPlanView::Apply {
                manifests: manifest_views(manifests@),
                stale: views(stale@),
            },
        }
    }
}

/// The seconds after which an object is looked at again once the plan has been carried
/// out; `None` where that is only when the object changes.
pub open spec fn managed_requeue(plan: ManagedPlanView) -> Option<u64> {
    match plan {
        ManagedPlanView::Leave => None,
        ManagedPlanView::Remove(_) => None,
        ManagedPlanView::Retry(secs) => Some(secs),
        ManagedPlanView::Apply { .. } => Some(MANAGED_REQUEUE_SECS),
    }
}

impl ManagedPlan {
    /// The seconds after which the object is looked at again; `None` where that is only
    /// when it changes.
    pub fn requeue_after(&self) -> (secs: Option<u64>)
        ensures
            secs == managed_requeue(self@),
    {
        match self {
            ManagedPlan::Leave => None,
            ManagedPlan::Remove(_) => None,
            ManagedPlan::Retry(secs) => Some(*secs),
            ManagedPlan::Apply { .. } => Some(MANAGED_REQUEUE_SECS),
        }
    }
}

/// Writing what is wanted and deleting the owned mappings that are not.
pub open spec fn apply_desired(
    owner: OwnerView,
    ip: Seq<char>,
    desired: Seq<(u16, u16, Protocol)>,
    owned: Seq<Seq<char>>,
) -> ManagedPlanView {
    ManagedPlanView::Apply {
        manifests: manifests_for(owner, ip, desired),
        stale: stale_names(owned, wanted_names(owner.namespace, owner.name, desired)),
    }
}

/// Plans to write what is wanted and to delete the owned mappings that are not.
#[verifier::rlimit(40)]
pub fn apply_port_mappings(
    owner: &Owner,
    ip: &str,
    desired: &Vec<(u16, u16, Protocol)>,
    owned: &Vec<String>,
) -> (plan: ManagedPlan)
    ensures
        plan@ == apply_desired(owner@, ip@, desired@, views(owned@)),
{
    let ghost view = owner@;
    let mut names: Vec<String> = Vec::new();
    let mut manifests: Vec<Manifest> = Vec::new();
    let mut i: usize = 0;
    assert(views(names@) =~= wanted_names(view.namespace, view.name, desired@.take(0)));
    assert(manifest_views(manifests@) =~= manifests_for(view, ip@, desired@.take(0)));
    while i < desired.len()
        invariant
            i <= desired.len(),
            view == owner@,
            views(names@) == wanted_names(view.namespace, view.name, desired@.take(i as int)),
            manifest_views(manifests@) == manifests_for(view, ip@, desired@.take(i as int)),
        decreases desired.len() - i,
    {
        let (external_port, internal_port, protocol) = desired[i];
        let ghost earlier_names = names@;
        let ghost earlier = manifests@;
        let name = pm_name_for_owner(
            owner.namespace.as_str(),
            owner.name.as_str(),
            external_port,
            &protocol,
        );
        names.push(name.clone());
        let description = "auto:".to_owned().concat(owner.namespace.as_str()).concat("/").concat(
            owner.name.as_str(),
        );
        manifests.push(
            Manifest {
                name,
                namespace: owner.namespace.clone(),
                managed_by: MANAGED_BY_VALUE.to_owned(),
                owner: OwnerReference {
                    api_version: owner.api_version.clone(),
                    kind: owner.kind.clone(),
                    name: owner.name.clone(),
                    uid: owner.uid.clone(),
                    controller: true,
                    block_owner_deletion: true,
                },
                spec: PortMappingSpec {
                    external_port,
                    internal_host: ip.to_owned(),
                    internal_port,
                    protocol,
                    description: Some(description),
                },
            },
        );
        assert(desired@.take(i + 1) =~= desired@.take(i as int).push(desired[i as int]));
        assert(views(names@) =~= views(earlier_names).push(name@));
        assert(manifest_views(manifests@) =~= manifest_views(earlier).push(
            manifests@.last()@,
        ));
        assert(wanted_names(view.namespace, view.name, desired@.take(i + 1)) =~= wanted_names(
            view.namespace,
            view.name,
            desired@.take(i as int),
        ).push(owned_name(view.namespace, view.name, external_port, protocol)));
        assert(manifests_for(view, ip@, desired@.take(i + 1)) =~= manifests_for(
            view,
            ip@,
            desired@.take(i as int),
        ).push(manifest_for(view, ip@, desired[i as int])));
        i += 1;
    }
    assert(desired@.take(i as int) =~= desired@);
    let stale = not_wanted(owned, &names);
    ManagedPlan::Apply { manifests, stale }
}

/// The text that stands for an optional one.
pub open spec fn or_else_text(text: Option<Seq<char>>, fallback: Seq<char>) -> Seq<char> {
    match text {
        Some(t) => t,
        None => fallback,
    }
}

/// The text that stands for an optional one.
fn text_or(text: &Option<String>, fallback: &str) -> (r: String)
    ensures
        r@ == or_else_text(opt(*text), fallback@),
{
    match text {
        Some(t) => t.clone(),
        None => fallback.to_owned(),
    }
}

/// What is read of a Service.
#[derive(Debug, Clone)]
pub struct Service {
    pub name: String,
    pub namespace: Option<String>,
    pub uid: Option<String>,
    pub annotations: Vec<Entry>,
    pub type_: Option<String>,
    /// The address of each ingress point of the load balancer, where it has one.
    pub ingress: Vec<Option<String>>,
    pub ports: Vec<ServicePort>,
}

/// What is read of a Pod.
#[derive(Debug, Clone)]
pub struct Pod {
    pub name: String,
    pub namespace: Option<String>,
    pub uid: Option<String>,
    pub annotations: Vec<Entry>,
    pub pod_ip: Option<String>,
    /// The ports of each container.
    pub containers: Vec<Vec<ContainerPort>>,
}

impl Service {
    /// The Service as the owner of mappings.
    pub open spec fn owner_view(self) -> OwnerView {
        OwnerView {
            api_version: "v1"@,
            kind: "Service"@,
            namespace: or_else_text(opt(self.namespace), DEFAULT_NAMESPACE@),
            name: self.name@,
            uid: or_else_text(opt(self.uid), ""@),
        }
    }

    /// The value of the port forwarding annotation.
    pub open spec fn annotation_view(self) -> Option<Seq<char>> {
        lookup(entry_views(self.annotations@), PORT_FORWARD_ANNOTATION@)
    }

    /// The address of the load balancer: that of its first ingress point.
    pub open spec fn address_view(self) -> Option<Seq<char>> {
        if self.ingress@.len() > 0 {
            opt(self.ingress@[0])
        } else {
            None
        }
    }

    /// The Service is exposed by a load balancer.
    pub open spec fn is_load_balancer(self) -> bool {
        opt(self.type_) == Some("LoadBalancer"@)
    }

    /// The Service as the owner of mappings.
    fn owner(&self) -> (owner: Owner)
        ensures
            owner@ == self.owner_view(),
    {
        Owner {
            api_version: "v1".to_owned(),
            kind: "Service".to_owned(),
            namespace: text_or(&self.namespace, DEFAULT_NAMESPACE),
            name: self.name.clone(),
            uid: text_or(&self.uid, ""),
        }
    }
}

impl Pod {
    /// The Pod as the owner of mappings.
    pub open spec fn owner_view(self) -> OwnerView {
        OwnerView {
            api_version: "v1"@,
            kind: "Pod"@,
            namespace: or_else_text(opt(self.namespace), DEFAULT_NAMESPACE@),
            name: self.name@,
            uid: or_else_text(opt(self.uid), ""@),
        }
    }

    /// The value of the port forwarding annotation.
    pub open spec fn annotation_view(self) -> Option<Seq<char>> {
        lookup(entry_views(self.annotations@), PORT_FORWARD_ANNOTATION@)
    }

    /// The Pod as the owner of mappings.
    fn owner(&self) -> (owner: Owner)
        ensures
            owner@ == self.owner_view(),
    {
        Owner {
            api_version: "v1".to_owned(),
            kind: "Pod".to_owned(),
            namespace: text_or(&self.namespace, DEFAULT_NAMESPACE),
            name: self.name.clone(),
            uid: text_or(&self.uid, ""),
        }
    }
}

/// The ports with their protocols of all containers, in order.
pub open spec fn pod_table(containers: Seq<Vec<ContainerPort>>) -> Seq<(u16, Protocol)>
    decreases containers.len(),
{
    if containers.len() == 0 {
        Seq::empty()
    } else {
        pod_table(containers.drop_last()) + container_table(containers.last()@)
    }
}

/// What to do once the address of an annotated object is known: write what the
/// annotation asks for, and nothing where it asks for nothing. During a shutdown nothing
/// is written.
pub open spec fn annotated_plan(
    owner: OwnerView,
    ip: Option<Seq<char>>,
    desired: Seq<(u16, u16, Protocol)>,
    owned: Seq<Seq<char>>,
    shutting_down: bool,
) -> ManagedPlanView {
    match ip {
        None => ManagedPlanView::Retry(ADDRESS_REQUEUE_SECS),
        Some(address) => if desired.len() == 0 || shutting_down {
            ManagedPlanView::Leave
        } else {
            apply_desired(owner, address, desired, owned)
        },
    }
}

/// What to do about the mappings of a Service. Without the annotation all mappings that
/// it owns go, also during a shutdown. Only a Service with a load balancer gets mappings.
pub open spec fn service_plan(
    svc: Service,
    listed: Seq<ManagedMappingView>,
    shutting_down: bool,
) -> ManagedPlanView {
    let owned = owned_by(listed, svc.owner_view().uid);
    match svc.annotation_view() {
        None => ManagedPlanView::Remove(owned),
        Some(value) => if svc.is_load_balancer() {
            annotated_plan(
                svc.owner_view(),
                svc.address_view(),
                annotated(value, service_table(svc.ports@)),
                owned,
                shutting_down,
            )
        } else {
            ManagedPlanView::Leave
        },
    }
}

/// What to do about the mappings of a Pod. Without the annotation all mappings that it
/// owns go, also during a shutdown.
pub open spec fn pod_plan(
    pod: Pod,
    listed: Seq<ManagedMappingView>,
    shutting_down: bool,
) -> ManagedPlanView {
    let owned = owned_by(listed, pod.owner_view().uid);
    match pod.annotation_view() {
        None => ManagedPlanView::Remove(owned),
        Some(value) => annotated_plan(
            pod.owner_view(),
            opt(pod.pod_ip),
            annotated(value, pod_table(pod.containers@)),
            owned,
            shutting_down,
        ),
    }
}

/// Decides what to do about the mappings of a Service, given the managed mappings of
/// its namespace.
pub fn reconcile_service(
    svc: &Service,
    listed: &Vec<ManagedMapping>,
    shutting_down: bool,
) -> (plan: ManagedPlan)
    ensures
        plan@ == service_plan(*svc, managed_views(listed@), shutting_down),
{
    let owner = svc.owner();
    let owned = list_owned_port_mappings(listed, owner.uid.as_str());
    let value = match find_entry(&svc.annotations, PORT_FORWARD_ANNOTATION) {
        Some(value) => value,
        None => {
            return ManagedPlan::Remove(owned);
        },
    };
    let is_lb = match &svc.type_ {
        Some(type_) => same(type_.as_str(), "LoadBalancer"),
        None => false,
    };
    if !is_lb {
        return ManagedPlan::Leave;
    }
    if svc.ingress.len() == 0 {
        return ManagedPlan::Retry(ADDRESS_REQUEUE_SECS);
    }
    match &svc.ingress[0] {
        None => ManagedPlan::Retry(ADDRESS_REQUEUE_SECS),
        Some(ip) => {
            let desired = parse_service_annotation(value, svc.ports.as_slice());
            if desired.len() == 0 || shutting_down {
                ManagedPlan::Leave
            } else {
                apply_port_mappings(&owner, ip.as_str(), &desired, &owned)
            }
        },
    }
}

/// The ports of all containers, in order.
fn all_container_ports(containers: &Vec<Vec<ContainerPort>>) -> (ports: Vec<ContainerPort>)
    ensures
        container_table(ports@) == pod_table(containers@),
{
    let mut ports: Vec<ContainerPort> = Vec::new();
    let mut i: usize = 0;
    assert(containers@.take(0) =~= Seq::empty());
    assert(container_table(ports@) =~= Seq::empty());
    while i < containers.len()
        invariant
            i <= containers.len(),
            container_table(ports@) == pod_table(containers@.take(i as int)),
        decreases containers.len() - i,
    {
        let container = &containers[i];
        let ghost earlier = container_table(ports@);
        let mut k: usize = 0;
        assert(container_table(container@.take(0)) =~= Seq::empty());
        assert(earlier + container_table(container@.take(0)) =~= earlier);
        while k < container.len()
            invariant
                k <= container.len(),
                container_table(ports@) == earlier + container_table(container@.take(k as int)),
            decreases container.len() - k,
        {
            let port = &container[k];
            let ghost before = ports@;
            ports.push(
                ContainerPort {
                    container_port: port.container_port,
                    protocol: match &port.protocol {
                        Some(name) => Some(name.clone()),
                        None => None,
                    },
                },
            );
            assert(container@.take(k + 1) =~= container@.take(k as int).push(container[k as int]));
            let ghost entry = (
                port_number(port.container_port),
                k8s_protocol(opt(port.protocol)),
            );
            assert(container_table(ports@) =~= container_table(before).push(entry));
            assert(container_table(container@.take(k + 1)) =~= container_table(
                container@.take(k as int),
            ).push(entry));
            assert(container_table(ports@) =~= earlier + container_table(container@.take(k + 1)));
            k += 1;
        }
        assert(container@.take(k as int) =~= container@);
        assert(containers@.take(i + 1).drop_last() =~= containers@.take(i as int));
        assert(containers@.take(i + 1).last() == containers[i as int]);
        i += 1;
    }
    assert(containers@.take(i as int) =~= containers@);
    ports
}

/// Decides what to do about the mappings of a Pod, given the managed mappings of its
/// namespace.
pub fn reconcile_pod(
    pod: &Pod,
    listed: &Vec<ManagedMapping>,
    shutting_down: bool,
) -> (plan: ManagedPlan)
    ensures
        plan@ == pod_plan(*pod, managed_views(listed@), shutting_down),
{
    let owner = pod.owner();
    let owned = list_owned_port_mappings(listed, owner.uid.as_str());
    let value = match find_entry(&pod.annotations, PORT_FORWARD_ANNOTATION) {
        Some(value) => value,
        None => {
            return ManagedPlan::Remove(owned);
        },
    };
    match &pod.pod_ip {
        None => ManagedPlan::Retry(ADDRESS_REQUEUE_SECS),
        Some(ip) => {
            let ports = all_container_ports(&pod.containers);
            let desired = parse_pod_annotation(value, ports.as_slice());
            if desired.len() == 0 || shutting_down {
                ManagedPlan::Leave
            } else {
                apply_port_mappings(&owner, ip.as_str(), &desired, &owned)
            }
        },
    }
}

/// The owned names are those of the mappings that have the owner among their owners.
pub proof fn law_owned_by(listed: Seq<ManagedMappingView>, uid: Seq<char>, name: Seq<char>)
    ensures
        owned_by(listed, uid).contains(name) <==> exists|i: int|
            0 <= i < listed.len() && (#[trigger] listed[i]).name == name
                && listed[i].owner_uids.contains(uid),
    decreases listed.len(),
{
    if listed.len() > 0 {
        let last = listed.last();
        let first = listed.drop_last();
        let earlier = owned_by(first, uid);
        law_owned_by(first, uid, name);
        vstd::seq_lib::lemma_seq_contains_after_push(earlier, last.name, name);
        if earlier.contains(name) {
            let i = choose|i: int|
                0 <= i < first.len() && (#[trigger] first[i]).name == name
                    && first[i].owner_uids.contains(uid);
            assert(listed[i] == first[i]);
        }
        if last.name == name && last.owner_uids.contains(uid) {
            assert(listed[listed.len() - 1] == last);
        }
        if exists|i: int|
            0 <= i < listed.len() && (#[trigger] listed[i]).name == name
                && listed[i].owner_uids.contains(uid) {
            let i = choose|i: int|
                0 <= i < listed.len() && (#[trigger] listed[i]).name == name
                    && listed[i].owner_uids.contains(uid);
            if i < first.len() {
                assert(first[i] == listed[i]);
            }
        }
    }
}

/// A Service or a Pod that loses its annotation loses all mappings that it owns, and no
/// others, also during a shutdown.
pub proof fn law_annotation_removed(
    svc: Service,
    pod: Pod,
    listed: Seq<ManagedMappingView>,
    name: Seq<char>,
    shutting_down: bool,
)
    requires
        svc.annotation_view() is None,
        pod.annotation_view() is None,
    ensures
        service_plan(svc, listed, shutting_down) matches ManagedPlanView::Remove(names) && (names.contains(
            name,
        ) <==> exists|i: int|
            0 <= i < listed.len() && (#[trigger] listed[i]).name == name
                && listed[i].owner_uids.contains(svc.owner_view().uid)),
        pod_plan(pod, listed, shutting_down) matches ManagedPlanView::Remove(names) && (names.contains(name)
            <==> exists|i: int|
            0 <= i < listed.len() && (#[trigger] listed[i]).name == name
                && listed[i].owner_uids.contains(pod.owner_view().uid)),
{
    law_owned_by(listed, svc.owner_view().uid, name);
    law_owned_by(listed, pod.owner_view().uid, name);
}

/// No mapping is written during a shutdown.
pub proof fn law_nothing_written_during_shutdown(
    svc: Service,
    pod: Pod,
    listed: Seq<ManagedMappingView>,
)
    ensures
        !(service_plan(svc, listed, true) is Apply),
        !(pod_plan(pod, listed, true) is Apply),
{
}

/// The stale names are those owned names that are not wanted.
proof fn lemma_stale(owned: Seq<Seq<char>>, wanted: Seq<Seq<char>>, name: Seq<char>)
    ensures
        stale_names(owned, wanted).contains(name) == (owned.contains(name) && !wanted.contains(
            name,
        )),
    decreases owned.len(),
{
    if owned.len() > 0 {
        let last = owned.last();
        let earlier = stale_names(owned.drop_last(), wanted);
        lemma_stale(owned.drop_last(), wanted, name);
        assert(owned =~= owned.drop_last().push(last));
        vstd::seq_lib::lemma_seq_contains_after_push(owned.drop_last(), last, name);
        vstd::seq_lib::lemma_seq_contains_after_push(earlier, last, name);
    }
}

/// No mapping is both written and deleted, and every owned mapping that is not written
/// is deleted.
pub proof fn law_written_or_deleted(
    owner: OwnerView,
    ip: Seq<char>,
    desired: Seq<(u16, u16, Protocol)>,
    owned: Seq<Seq<char>>,
    name: Seq<char>,
)
    ensures
        apply_desired(owner, ip, desired, owned) matches ManagedPlanView::Apply { manifests, stale }
            && ({
            let written = manifests.map_values(|m: ManifestView| m.name);
            stale.contains(name) == (owned.contains(name) && !written.contains(name))
        }),
{
    let written = manifests_for(owner, ip, desired).map_values(|m: ManifestView| m.name);
    assert(written =~= wanted_names(owner.namespace, owner.name, desired));
    lemma_stale(owned, written, name);
}

/// Once what is wanted has been written and the rest deleted, doing the same again
/// deletes nothing.
pub proof fn law_applied_is_settled(
    owner: OwnerView,
    ip: Seq<char>,
    desired: Seq<(u16, u16, Protocol)>,
)
    ensures
        apply_desired(
            owner,
            ip,
            desired,
            manifests_for(owner, ip, desired).map_values(|m: ManifestView| m.name),
        ) == (ManagedPlanView::Apply {
            manifests: manifests_for(owner, ip, desired),
            stale: Seq::empty(),
        }),
{
    let written = manifests_for(owner, ip, desired).map_values(|m: ManifestView| m.name);
    let wanted = wanted_names(owner.namespace, owner.name, desired);
    assert(written =~= wanted);
    let stale = stale_names(written, wanted);
    if stale.len() > 0 {
        assert(stale.contains(stale[0]));
        lemma_stale(written, wanted, stale[0]);
    }
    assert(stale =~= Seq::empty());
}

} // verus!
