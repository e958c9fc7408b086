//! Port forwarding for annotated Services and Pods.

use crate::controllers::port_forward::{
    annotated, apply_desired, container_table, declared, forward_of, forwards, law_owned_by,
    law_written_or_deleted, managed_requeue, manifests_for, owned_by, pod_plan, pod_table,
    service_plan, service_table, stale_names, ContainerPort, ManagedMappingView,
    ManagedPlanView, ManifestView, OwnerView, Pod, Service, ServicePort,
};
use crate::crds::port_mapping::Protocol;
use crate::entries::{entry_views, lookup};
use crate::laws::text::{
    all_white, has_dark_ends, law_split_joined, law_split_once, law_split_one_piece, law_trim,
    lemma_decimal_is_dark,
};
use crate::text::{
    decimal, is_digit, is_white, law_decimal_reads_back, opt, parse_unsigned, split, split_once,
    trim, without_plus,
};
use vstd::prelude::*;
use vstd::string::*;

verus! {

// ---------------------------------------------------------------------------
// Declared ports
// ---------------------------------------------------------------------------

/// The protocol of a port is that of the first entry with its number; a port without an
/// entry has none.
pub proof fn law_declared(table: Seq<(u16, Protocol)>, port: u16)
    ensures
        match declared(table, port) {
            Some(protocol) => exists|i: int|
                0 <= i < table.len() && #[trigger] table[i] == (port, protocol) && forall|j: int|
                    0 <= j < i ==> (#[trigger] table[j]).0 != port,
            None => forall|j: int| 0 <= j < table.len() ==> (#[trigger] table[j]).0 != port,
        },
    decreases table.len(),
{
    if table.len() > 0 && table[0].0 != port {
        let rest = table.drop_first();
        law_declared(rest, port);
        match declared(rest, port) {
            Some(protocol) => {
                let i = choose|i: int|
                    0 <= i < rest.len() && #[trigger] rest[i] == (port, protocol) && forall|j: int|
                        0 <= j < i ==> (#[trigger] rest[j]).0 != port;
                assert(table[i + 1] == rest[i]);
                assert forall|j: int| 0 <= j < i + 1 implies (#[trigger] table[j]).0 != port by {
                    if j > 0 {
                        assert(table[j] == rest[j - 1]);
                    }
                }
            },
            None => {
                assert forall|j: int| 0 <= j < table.len() implies (#[trigger] table[j]).0
                    != port by {
                    if j > 0 {
                        assert(table[j] == rest[j - 1]);
                    }
                }
            },
        }
    } else if table.len() > 0 {
        assert(table[0] == (port, table[0].1));
    }
}

/// The protocol that a declaration itself names: UDP exactly when it says so.
pub open spec fn named_protocol(protocol: Option<String>) -> Protocol {
    if protocol matches Some(name) && name@ == "UDP"@ {
        Protocol::Udp
    } else {
        Protocol::Tcp
    }
}

/// The annotation `true` on a Service asks for every port that it declares, in order,
/// each mapped to itself and under the protocol that its own declaration names.
pub proof fn law_true_forwards_service_ports(ports: Seq<ServicePort>)
    ensures
        ({
            let asked = annotated("true"@, service_table(ports));
            &&& asked.len() == ports.len()
            &&& forall|i: int|
                0 <= i < ports.len() ==> (#[trigger] asked[i]).0 as int == ports[i].port as int
                    % 65536 && asked[i].1 == asked[i].0 && asked[i].2 == named_protocol(
                    ports[i].protocol,
                )
        }),
{
}

/// The annotation `true` on a Pod asks for every port that its containers declare, in
/// order, each mapped to itself and under the protocol that its own declaration names.
pub proof fn law_true_forwards_container_ports(ports: Seq<ContainerPort>)
    ensures
        ({
            let asked = annotated("true"@, container_table(ports));
            &&& asked.len() == ports.len()
            &&& forall|i: int|
                0 <= i < ports.len() ==> (#[trigger] asked[i]).0 as int
                    == ports[i].container_port as int % 65536 && asked[i].1 == asked[i].0
                    && asked[i].2 == named_protocol(ports[i].protocol)
        }),
{
}

/// The annotation `true` asks for every declared port, in order, each mapped to itself
/// and under its own protocol, also where another has the same number.
pub proof fn law_true_forwards_every_port(table: Seq<(u16, Protocol)>)
    ensures
        ({
            let asked = annotated("true"@, table);
            &&& asked.len() == table.len()
            &&& forall|i: int|
                0 <= i < table.len() ==> (#[trigger] asked[i]).0 == table[i].0 && asked[i].1
                    == table[i].0 && asked[i].2 == table[i].1
        }),
{
}

/// The ports that a list annotation is held against are those declared: number and
/// protocol of each, in order.
pub proof fn law_tables(ports: Seq<ServicePort>, container_ports: Seq<ContainerPort>)
    ensures
        service_table(ports).len() == ports.len(),
        forall|i: int|
            0 <= i < ports.len() ==> (#[trigger] service_table(ports)[i]).0 as int
                == ports[i].port as int % 65536 && service_table(ports)[i].1 == named_protocol(
                ports[i].protocol,
            ),
        container_table(container_ports).len() == container_ports.len(),
        forall|i: int|
            0 <= i < container_ports.len() ==> (#[trigger] container_table(container_ports)[i]).0
                as int == container_ports[i].container_port as int % 65536 && container_table(
                container_ports,
            )[i].1 == named_protocol(container_ports[i].protocol),
{
}

/// The ports of a Pod are those of its containers, one container after the other.
pub proof fn law_pod_table(first: Seq<Vec<ContainerPort>>, container: Vec<ContainerPort>)
    ensures
        pod_table(Seq::empty()) == Seq::<(u16, Protocol)>::empty(),
        pod_table(first.push(container)) == pod_table(first) + container_table(container@),
{
    assert(first.push(container).drop_last() =~= first);
}

// ---------------------------------------------------------------------------
// Lists of ports
// ---------------------------------------------------------------------------

/// The text of a number holds no separator and no white space at its ends.
proof fn lemma_number_is_dark(s: Seq<char>, max: nat)
    requires
        parse_unsigned(s, max) is Some,
    ensures
        s.len() > 0,
        has_dark_ends(s),
        !s.contains(','),
        !s.contains(':'),
        trim(s) == s,
{
    let digits = without_plus(s);
    assert forall|i: int| 0 <= i < s.len() implies s[i] == '+' || is_digit(#[trigger] s[i]) by {
        if digits == s {
            assert(is_digit(digits[i]));
        } else if i > 0 {
            assert(digits[i - 1] == s[i]);
            assert(is_digit(digits[i - 1]));
        }
    }
    assert(s[0] == '+' || is_digit(s[0]));
    assert(s[s.len() - 1] == '+' || is_digit(s[s.len() - 1]));
    assert forall|i: int| 0 <= i < s.len() implies s[i] != ',' && s[i] != ':' by {
        assert(s[i] == '+' || is_digit(s[i]));
    }
    let none = Seq::<char>::empty();
    law_trim(none, s, none);
    assert(none + s + none =~= s);
}

/// White space holds no separator.
proof fn lemma_white_has_no_separator(w: Seq<char>)
    requires
        all_white(w),
    ensures
        !w.contains(','),
        !w.contains(':'),
{
    assert forall|i: int| 0 <= i < w.len() implies w[i] != ',' && w[i] != ':' by {
        assert(is_white(w[i]));
    }
}

/// The part `external:own` asks for the external port to be mapped to the own port,
/// whatever the two numbers are, with white space around either. The protocol is that of
/// the own port, and TCP where that is not declared.
pub proof fn law_remapped_port(
    left: Seq<char>,
    external: Seq<char>,
    middle_left: Seq<char>,
    middle_right: Seq<char>,
    own: Seq<char>,
    right: Seq<char>,
    e: u16,
    o: u16,
    table: Seq<(u16, Protocol)>,
)
    requires
        all_white(left),
        all_white(middle_left),
        all_white(middle_right),
        all_white(right),
        parse_unsigned(external, 65535) == Some(e as nat),
        parse_unsigned(own, 65535) == Some(o as nat),
    ensures
        forward_of(
            left + external + middle_left + ":"@ + middle_right + own + right,
            table,
        ) == Some(
            (
                e,
                o,
                match declared(table, o) {
                    Some(protocol) => protocol,
                    None => Protocol::Tcp,
                },
            ),
        ),
{
    reveal_strlit(":");
    lemma_number_is_dark(external, 65535);
    lemma_number_is_dark(own, 65535);
    lemma_white_has_no_separator(middle_left);
    let head = external + middle_left;
    let tail = middle_right + own;
    let core = head + seq![':'] + tail;
    let part = left + external + middle_left + ":"@ + middle_right + own + right;
    assert(":"@ =~= seq![':']);
    assert(part =~= left + core + right);
    assert(core[0] == external[0]);
    assert(core.last() == own.last());
    law_trim(left, core, right);
    assert(!head.contains(':')) by {
        assert forall|i: int| 0 <= i < head.len() implies head[i] != ':' by {
            if i < external.len() {
                assert(external.contains(external[i]));
            } else {
                assert(middle_left.contains(middle_left[i - external.len()]));
            }
        }
    }
    law_split_once(head, ':', tail);
    let none = Seq::<char>::empty();
    law_trim(none, external, middle_left);
    assert(none + external + middle_left =~= head);
    law_trim(middle_right, own, none);
    assert(middle_right + own + none =~= tail);
}

/// A bare port asks to be mapped to itself where it is declared, with white space around
/// it, and for nothing where it is not.
pub proof fn law_bare_port(
    left: Seq<char>,
    text: Seq<char>,
    right: Seq<char>,
    port: u16,
    table: Seq<(u16, Protocol)>,
)
    requires
        all_white(left),
        all_white(right),
        parse_unsigned(text, 65535) == Some(port as nat),
    ensures
        forward_of(left + text + right, table) == (match declared(table, port) {
            Some(protocol) => Some((port, port, protocol)),
            None => None,
        }),
{
    lemma_number_is_dark(text, 65535);
    law_trim(left, text, right);
    law_split_once(text, ':', Seq::empty());
}

/// What a part asks for it says: its numbers are the ports. A part that is neither a
/// number nor two numbers with a colon between them asks for nothing.
pub proof fn law_part_says_its_ports(part: Seq<char>, table: Seq<(u16, Protocol)>)
    ensures
        forward_of(part, table) matches Some((e, o, protocol)) ==> (match split_once(
            trim(part),
            ':',
        ) {
            Some((external, own)) => parse_unsigned(trim(external), 65535) == Some(e as nat)
                && parse_unsigned(trim(own), 65535) == Some(o as nat) && (declared(table, o) == Some(
                protocol,
            ) || declared(table, o) is None && protocol == Protocol::Tcp),
            None => parse_unsigned(trim(part), 65535) == Some(e as nat) && o == e && declared(
                table,
                e,
            ) == Some(protocol),
        }),
{
}

/// Two runs of parts ask for what the one asks for and then for what the other does.
proof fn lemma_forwards_joined(
    a: Seq<Seq<char>>,
    b: Seq<Seq<char>>,
    table: Seq<(u16, Protocol)>,
)
    ensures
        forwards(a + b, table) == forwards(a, table) + forwards(b, table),
    decreases b.len(),
{
    if b.len() == 0 {
        assert(a + b =~= a);
        assert(forwards(a, table) + forwards(b, table) =~= forwards(a, table));
    } else {
        assert((a + b).drop_last() =~= a + b.drop_last());
        assert((a + b).last() == b.last());
        lemma_forwards_joined(a, b.drop_last(), table);
        assert(forwards(a + b, table) =~= forwards(a, table) + forwards(b, table));
    }
}

/// A list asks for what its parts ask for, in order, and a list of one part for what that
/// part does.
pub proof fn law_list_asks_for_its_parts(
    a: Seq<char>,
    b: Seq<char>,
    table: Seq<(u16, Protocol)>,
)
    ensures
        a != "true"@ && b != "true"@ ==> annotated(a + ","@ + b, table) == annotated(a, table)
            + annotated(b, table),
        a != "true"@ && !a.contains(',') ==> annotated(a, table) == (match forward_of(a, table) {
            Some(forward) => seq![forward],
            None => Seq::empty(),
        }),
{
    reveal_strlit(",");
    reveal_strlit("true");
    assert(","@ =~= seq![',']);
    let list = a + ","@ + b;
    assert(list[a.len() as int] == ',');
    assert(list.contains(','));
    assert(!"true"@.contains(','));
    law_split_joined(a, ',', b);
    lemma_forwards_joined(split(a, ','), split(b, ','), table);
    if !a.contains(',') {
        law_split_one_piece(a, ',');
        let parts = seq![a];
        assert(parts.drop_last() =~= Seq::<Seq<char>>::empty());
        assert(parts.last() == a);
        assert(forwards(parts.drop_last(), table) =~= Seq::empty());
        assert(forwards(parts, table) =~= (match forward_of(a, table) {
            Some(forward) => seq![forward],
            None => Seq::empty(),
        }));
    }
}

/// The annotation `external:own` asks for one mapping, from the external to the own port.
pub proof fn law_remap_annotation(e: u16, o: u16, table: Seq<(u16, Protocol)>)
    ensures
        ({
            let asked = annotated(decimal(e as nat) + ":"@ + decimal(o as nat), table);
            &&& asked.len() == 1
            &&& asked[0].0 == e
            &&& asked[0].1 == o
            &&& asked[0].2 == (match declared(table, o) {
                Some(protocol) => protocol,
                None => Protocol::Tcp,
            })
        }),
{
    let none = Seq::<char>::empty();
    let x = decimal(e as nat);
    let y = decimal(o as nat);
    let value = x + ":"@ + y;
    lemma_decimal_is_dark(e as nat);
    lemma_decimal_is_dark(o as nat);
    law_decimal_reads_back(e as nat, 65535);
    law_decimal_reads_back(o as nat, 65535);
    law_remapped_port(none, x, none, none, y, none, e, o, table);
    assert(none + x + none + ":"@ + none + y + none =~= value);
    reveal_strlit(":");
    reveal_strlit("true");
    assert(value[x.len() as int] == ':');
    assert(value.contains(':'));
    assert(!"true"@.contains(':'));
    assert forall|i: int| 0 <= i < value.len() implies value[i] != ',' by {
        if i < x.len() {
            assert(x.contains(x[i]));
        } else if i > x.len() {
            assert(y.contains(y[i - x.len() - 1]));
        }
    }
    law_list_asks_for_its_parts(value, none, table);
}

// ---------------------------------------------------------------------------
// Written mappings
// ---------------------------------------------------------------------------

/// The mapping that is written for a wanted port: the external port and the own port as
/// they are wanted, to the owner's address, under the owner's name and in its namespace.
pub open spec fn is_written_for(
    m: ManifestView,
    wanted: (u16, u16, Protocol),
    kind: Seq<char>,
    ns: Seq<char>,
    name: Seq<char>,
    uid: Seq<char>,
    ip: Seq<char>,
) -> bool {
    &&& m.spec.external_port == wanted.0
    &&& m.spec.internal_port == wanted.1
    &&& m.spec.protocol == wanted.2
    &&& m.spec.internal_host == ip
    &&& m.spec.description == Some("auto:"@ + ns + "/"@ + name)
    &&& m.namespace == ns
    &&& m.managed_by == "service-controller"@
    &&& m.name == ns + "-"@ + name + "-"@ + decimal(wanted.0 as nat) + (match wanted.2 {
        Protocol::Tcp => "-"@ + "tcp"@,
        Protocol::Udp => "-"@ + "udp"@,
    })
    &&& m.owner.api_version == "v1"@
    &&& m.owner.kind == kind
    &&& m.owner.name == name
    &&& m.owner.uid == uid
    &&& m.owner.controller
    &&& m.owner.block_owner_deletion
}

/// For every wanted port one mapping is written, in order, and no others.
pub proof fn law_wanted_ports_are_written(
    owner: OwnerView,
    ip: Seq<char>,
    desired: Seq<(u16, u16, Protocol)>,
    owned: Seq<Seq<char>>,
)
    requires
        owner.api_version == "v1"@,
    ensures
        apply_desired(owner, ip, desired, owned) matches ManagedPlanView::Apply { manifests, .. }
            && manifests.len() == desired.len() && forall|i: int|
            0 <= i < desired.len() ==> is_written_for(
                #[trigger] manifests[i],
                desired[i],
                owner.kind,
                owner.namespace,
                owner.name,
                owner.uid,
                ip,
            ),
{
    let manifests = manifests_for(owner, ip, desired);
    assert forall|i: int| 0 <= i < desired.len() implies is_written_for(
        #[trigger] manifests[i],
        desired[i],
        owner.kind,
        owner.namespace,
        owner.name,
        owner.uid,
        ip,
    ) by {
        let stem = owner.namespace + "-"@ + owner.name + "-"@ + decimal(desired[i].0 as nat);
        match desired[i].2 {
            Protocol::Tcp => {
                assert(stem + "-"@ + "tcp"@ =~= stem + ("-"@ + "tcp"@));
            },
            Protocol::Udp => {
                assert(stem + "-"@ + "udp"@ =~= stem + ("-"@ + "udp"@));
            },
        }
    }
}

/// The text, or a fallback for it.
pub open spec fn text_or(text: Option<String>, fallback: Seq<char>) -> Seq<char> {
    match text {
        Some(t) => t@,
        None => fallback,
    }
}

/// Some listed mapping has the name and the owner.
pub open spec fn is_owned(
    listed: Seq<ManagedMappingView>,
    uid: Seq<char>,
    name: Seq<char>,
) -> bool {
    exists|i: int|
        0 <= i < listed.len() && (#[trigger] listed[i]).name == name
            && listed[i].owner_uids.contains(uid)
}

/// A plan that writes the wanted ports of an owner and deletes exactly those of its
/// mappings that are not written.
pub open spec fn carries_out(
    plan: ManagedPlanView,
    desired: Seq<(u16, u16, Protocol)>,
    listed: Seq<ManagedMappingView>,
    kind: Seq<char>,
    ns: Seq<char>,
    name: Seq<char>,
    uid: Seq<char>,
    ip: Seq<char>,
) -> bool {
    plan matches ManagedPlanView::Apply { manifests, stale } && manifests.len() == desired.len() && (
    forall|i: int|
        0 <= i < desired.len() ==> is_written_for(
            #[trigger] manifests[i],
            desired[i],
            kind,
            ns,
            name,
            uid,
            ip,
        )) && (forall|other: Seq<char>| #[trigger]
        stale.contains(other) <==> is_owned(listed, uid, other) && forall|i: int|
            0 <= i < manifests.len() ==> (#[trigger] manifests[i]).name != other)
}

/// The plan for an owner carries out what is wanted.
proof fn lemma_apply_carries_out(
    owner: OwnerView,
    ip: Seq<char>,
    desired: Seq<(u16, u16, Protocol)>,
    listed: Seq<ManagedMappingView>,
)
    requires
        owner.api_version == "v1"@,
    ensures
        carries_out(
            apply_desired(owner, ip, desired, owned_by(listed, owner.uid)),
            desired,
            listed,
            owner.kind,
            owner.namespace,
            owner.name,
            owner.uid,
            ip,
        ),
{
    let owned = owned_by(listed, owner.uid);
    law_wanted_ports_are_written(owner, ip, desired, owned);
    let plan = apply_desired(owner, ip, desired, owned);
    let manifests = plan->manifests;
    let stale = plan->stale;
    let written = manifests.map_values(|m: ManifestView| m.name);
    assert forall|other: Seq<char>| #[trigger]
        stale.contains(other) <==> is_owned(listed, owner.uid, other) && forall|i: int|
            0 <= i < manifests.len() ==> (#[trigger] manifests[i]).name != other by {
        law_written_or_deleted(owner, ip, desired, owned, other);
        law_owned_by(listed, owner.uid, other);
        if written.contains(other) {
            let k = choose|k: int| 0 <= k < written.len() && written[k] == other;
            assert(manifests[k].name == other);
        } else {
            assert forall|i: int| 0 <= i < manifests.len() implies (#[trigger] manifests[i]).name
                != other by {
                assert(written[i] == manifests[i].name);
                assert(written.contains(written[i]));
            }
        }
    }
}

/// What is done about a Service. Without the annotation all that it owns goes. With it, a
/// Service that is no load balancer is left alone, one without an address at its first
/// ingress point is looked at again after five seconds, and any other gets what the
/// annotation asks for, unless that is nothing or a shutdown is under way.
pub proof fn law_service(svc: Service, listed: Seq<ManagedMappingView>, shutting_down: bool)
    ensures
        ({
            let plan = service_plan(svc, listed, shutting_down);
            let uid = text_or(svc.uid, ""@);
            match lookup(entry_views(svc.annotations@), "upnp-controller.io/port-forward"@) {
                None => plan matches ManagedPlanView::Remove(names) && forall|name: Seq<char>|
                    #[trigger] names.contains(name) <==> is_owned(listed, uid, name),
                Some(value) => {
                    let desired = annotated(value, service_table(svc.ports@));
                    if !(svc.type_ matches Some(type_) && type_@ == "LoadBalancer"@) {
                        plan is Leave
                    } else if svc.ingress@.len() == 0 || svc.ingress@[0] is None {
                        plan == ManagedPlanView::Retry(5)
                    } else if desired.len() == 0 || shutting_down {
                        plan is Leave
                    } else {
                        carries_out(
                            plan,
                            desired,
                            listed,
                            "Service"@,
                            text_or(svc.namespace, "default"@),
                            svc.name@,
                            uid,
                            svc.ingress@[0]->0@,
                        )
                    }
                },
            }
        }),
{
    let owner = svc.owner_view();
    assert forall|name: Seq<char>| #[trigger]
        owned_by(listed, owner.uid).contains(name) <==> is_owned(listed, owner.uid, name) by {
        law_owned_by(listed, owner.uid, name);
    }
    if let Some(value) = svc.annotation_view() {
        if let Some(ip) = svc.address_view() {
            lemma_apply_carries_out(
                owner,
                ip,
                annotated(value, service_table(svc.ports@)),
                listed,
            );
        }
    }
}

/// What is done about a Pod. Without the annotation all that it owns goes. With it, a Pod
/// without an address is looked at again after five seconds, and any other gets what the
/// annotation asks for, unless that is nothing or a shutdown is under way.
pub proof fn law_pod(pod: Pod, listed: Seq<ManagedMappingView>, shutting_down: bool)
    ensures
        ({
            let plan = pod_plan(pod, listed, shutting_down);
            let uid = text_or(pod.uid, ""@);
            match lookup(entry_views(pod.annotations@), "upnp-controller.io/port-forward"@) {
                None => plan matches ManagedPlanView::Remove(names) && forall|name: Seq<char>|
                    #[trigger] names.contains(name) <==> is_owned(listed, uid, name),
                Some(value) => {
                    let desired = annotated(value, pod_table(pod.containers@));
                    if pod.pod_ip is None {
                        plan == ManagedPlanView::Retry(5)
                    } else if desired.len() == 0 || shutting_down {
                        plan is Leave
                    } else {
                        carries_out(
                            plan,
                            desired,
                            listed,
                            "Pod"@,
                            text_or(pod.namespace, "default"@),
                            pod.name@,
                            uid,
                            pod.pod_ip->0@,
                        )
                    }
                },
            }
        }),
{
    let owner = pod.owner_view();
    assert forall|name: Seq<char>| #[trigger]
        owned_by(listed, owner.uid).contains(name) <==> is_owned(listed, owner.uid, name) by {
        law_owned_by(listed, owner.uid, name);
    }
    if let Some(value) = pod.annotation_view() {
        if let Some(ip) = opt(pod.pod_ip) {
            lemma_apply_carries_out(owner, ip, annotated(value, pod_table(pod.containers@)), listed);
        }
    }
}

/// A Service annotated `external:own` gets one mapping, from the external to the own port
/// and to the address of its load balancer.
pub proof fn law_remapped_service(
    svc: Service,
    listed: Seq<ManagedMappingView>,
    e: u16,
    o: u16,
)
    requires
        lookup(entry_views(svc.annotations@), "upnp-controller.io/port-forward"@) == Some(
            decimal(e as nat) + ":"@ + decimal(o as nat),
        ),
        svc.type_ matches Some(type_) && type_@ == "LoadBalancer"@,
        svc.ingress@.len() > 0,
        svc.ingress@[0] is Some,
    ensures
        service_plan(svc, listed, false) matches ManagedPlanView::Apply { manifests, .. }
            && manifests.len() == 1 && manifests[0].spec.external_port == e
            && manifests[0].spec.internal_port == o && manifests[0].spec.internal_host
            == svc.ingress@[0]->0@,
{
    law_remap_annotation(e, o, service_table(svc.ports@));
    law_service(svc, listed, false);
}

/// A Pod annotated `external:own` gets one mapping, from the external to the own port and
/// to its address.
pub proof fn law_remapped_pod(pod: Pod, listed: Seq<ManagedMappingView>, e: u16, o: u16)
    requires
        lookup(entry_views(pod.annotations@), "upnp-controller.io/port-forward"@) == Some(
            decimal(e as nat) + ":"@ + decimal(o as nat),
        ),
        pod.pod_ip is Some,
    ensures
        pod_plan(pod, listed, false) matches ManagedPlanView::Apply { manifests, .. }
            && manifests.len() == 1 && manifests[0].spec.external_port == e
            && manifests[0].spec.internal_port == o && manifests[0].spec.internal_host
            == pod.pod_ip->0@,
{
    law_remap_annotation(e, o, pod_table(pod.containers@));
    law_pod(pod, listed, false);
}

/// The owned names come in the order of the listing, each as often as it is listed; the
/// stale ones come in the order of the owned.
pub proof fn law_listing_order(
    listed: Seq<ManagedMappingView>,
    last: ManagedMappingView,
    uid: Seq<char>,
    owned: Seq<Seq<char>>,
    name: Seq<char>,
    wanted: Seq<Seq<char>>,
)
    ensures
        owned_by(Seq::empty(), uid) == Seq::<Seq<char>>::empty(),
        owned_by(listed.push(last), uid) == (if last.owner_uids.contains(uid) {
            owned_by(listed, uid).push(last.name)
        } else {
            owned_by(listed, uid)
        }),
        stale_names(Seq::empty(), wanted) == Seq::<Seq<char>>::empty(),
        stale_names(owned.push(name), wanted) == (if wanted.contains(name) {
            stale_names(owned, wanted)
        } else {
            stale_names(owned, wanted).push(name)
        }),
{
    assert(listed.push(last).drop_last() =~= listed);
    assert(owned.push(name).drop_last() =~= owned);
}

/// An object with written mappings is looked at again after a minute, one without an
/// address after the seconds that the plan names, and any other when it changes.
pub proof fn law_looked_at_again(plan: ManagedPlanView)
    ensures
        plan is Apply ==> managed_requeue(plan) == Some(60u64),
        plan matches ManagedPlanView::Retry(secs) ==> managed_requeue(plan) == Some(secs),
        plan is Leave || plan is Remove ==> managed_requeue(plan) is None,
{
}

} // verus!
