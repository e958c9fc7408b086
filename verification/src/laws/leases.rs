//! Mappings on the router: when they are added, what is said of them, and when they are
//! looked at again.

use crate::controllers::port_mapping_ctrl::{
    apply_plan, established_status, failed_status, lease_end, requeue_secs, AddMappingView,
    ApplyPlanView, Established,
};
use crate::crds::port_mapping::{PortMappingSpecView, PortMappingStatusView, Protocol};
use crate::time::{Timestamp, MAX_SECS};
use vstd::prelude::*;
use vstd::string::*;

verus! {

/// A mapping is on the router with at least so many seconds of its lease left.
pub open spec fn holds_for(
    status: Option<PortMappingStatusView>,
    now: Timestamp,
    secs: int,
) -> bool {
    status matches Some(s) && s.active && (s.lease_expiry matches Some(expiry)
        && expiry.total_nanos() - now.total_nanos() >= secs * 1_000_000_000)
}

/// What the resource asks to be put on the router.
pub open spec fn is_mapping_of(add: AddMappingView, name: Seq<char>, spec: PortMappingSpecView) -> bool {
    &&& add.external_port == spec.external_port
    &&& add.internal_host == spec.internal_host
    &&& add.internal_port == spec.internal_port
    &&& add.protocol == (match spec.protocol {
        Protocol::Tcp => "TCP"@,
        Protocol::Udp => "UDP"@,
    })
    &&& spec.description matches Some(text) ==> add.description == text
    &&& spec.description is None ==> add.description == name
    &&& add.lease_secs == 3600
}

/// A mapping with more than thirty seconds of its lease left is waited for, until thirty
/// whole seconds are left. Any other is added as the resource asks, but not during a
/// shutdown.
pub proof fn law_added_or_waited_for(
    name: Seq<char>,
    spec: PortMappingSpecView,
    status: Option<PortMappingStatusView>,
    now: Timestamp,
    shutting_down: bool,
)
    requires
        now.wf(),
        status matches Some(s) ==> (s.lease_expiry matches Some(expiry) ==> expiry.wf()),
    ensures
        match apply_plan(name, spec, status, now, shutting_down) {
            ApplyPlanView::Wait(secs) => secs > 0 && holds_for(status, now, secs + 30)
                && !holds_for(status, now, secs + 31),
            ApplyPlanView::Add(add) => !shutting_down && !holds_for(status, now, 31)
                && is_mapping_of(add, name, spec),
            ApplyPlanView::Leave => shutting_down && !holds_for(status, now, 31),
        },
{
}

/// A lease of some seconds ends that many seconds later; one of no seconds never ends.
pub proof fn law_lease_end(now: Timestamp, secs: u32)
    requires
        now.wf(),
        now.secs + secs <= MAX_SECS,
    ensures
        secs == 0 ==> lease_end(now, secs) is None,
        secs > 0 ==> (lease_end(now, secs) matches Some(expiry) && expiry.total_nanos()
            == now.total_nanos() + secs * 1_000_000_000),
{
}

/// The status of a mapping that is on the router says so: since when, until when, and
/// under which address.
pub proof fn law_established_status(e: Established, external_ip: Option<Seq<char>>)
    ensures
        ({
            let status = established_status(e, external_ip);
            &&& status.active
            &&& status.external_ip == external_ip
            &&& status.lease_expiry == e.lease_expiry
            &&& status.last_renewal == Some(e.renewed)
            &&& status.conditions.len() == 1
            &&& status.conditions[0].type_ == "Active"@
            &&& status.conditions[0].status == "True"@
            &&& status.conditions[0].reason == "MappingEstablished"@
            &&& status.conditions[0].message is None
            &&& status.conditions[0].last_transition_time == Some(e.renewed)
        }),
{
}

/// The status of a mapping that could not be added claims nothing and says why.
pub proof fn law_failed_status(message: Seq<char>, now: Timestamp)
    ensures
        ({
            let status = failed_status(message, now);
            &&& !status.active
            &&& status.external_ip is None
            &&& status.lease_expiry is None
            &&& status.last_renewal is None
            &&& status.conditions.len() == 1
            &&& status.conditions[0].type_ == "Active"@
            &&& status.conditions[0].status == "False"@
            &&& status.conditions[0].reason == "AddFailed"@
            &&& status.conditions[0].message == Some(message)
            &&& status.conditions[0].last_transition_time == Some(now)
        }),
{
}

/// A mapping on the router is looked at again when thirty whole seconds of its lease are
/// left, but not before ten seconds have passed; one without an end after an hour.
pub proof fn law_looked_at_in_time(e: Established, now: Timestamp)
    requires
        e.wf(),
        now.wf(),
    ensures
        requeue_secs(e, now) >= 10,
        e.lease_expiry is None ==> requeue_secs(e, now) == 3600,
        e.lease_expiry matches Some(expiry) ==> {
            let left = expiry.total_nanos() - now.total_nanos();
            let secs = requeue_secs(e, now);
            &&& left >= 40 * 1_000_000_000 ==> (secs + 30) * 1_000_000_000 <= left < (secs + 31)
                * 1_000_000_000
            &&& left < 41 * 1_000_000_000 ==> secs == 10
        },
{
}

/// The status that an addition leaves makes the next plan wait: a mapping just added with
/// a lease of more than thirty seconds is not added again at once.
pub proof fn law_added_mapping_is_waited_for(
    name: Seq<char>,
    spec: PortMappingSpecView,
    external_ip: Option<Seq<char>>,
    now: Timestamp,
    secs: u32,
)
    requires
        now.wf(),
        now.secs + secs <= MAX_SECS,
        secs > 30,
    ensures
        apply_plan(
            name,
            spec,
            Some(
                established_status(
                    Established { renewed: now, lease_expiry: lease_end(now, secs) },
                    external_ip,
                ),
            ),
            now,
            false,
        ) == ApplyPlanView::Wait((secs - 30) as u64),
{
}

} // verus!
