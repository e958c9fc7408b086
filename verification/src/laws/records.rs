//! The records of managed `DNSEndpoint` resources and the `GatewayStatus` singleton.

use crate::controllers::dns_endpoint_ctrl::{
    all_retargeted, dns_plan, dns_requeue, is_correct, retargeted, DnsPlanView, EndpointView,
};
use crate::controllers::gateway_ctrl::{current_status, status_update};
use crate::crds::gateway_status::GatewayStatusView;
use crate::entries::{lookup, EntryView};
use crate::time::Timestamp;
use crate::upnp::eventing::EventingStateView;
use vstd::prelude::*;
use vstd::string::*;

verus! {

/// An A record that does not point to the address alone.
pub open spec fn is_outdated(e: EndpointView, ip: Seq<char>) -> bool {
    e.record_type == "A"@ && !(e.targets.len() == 1 && e.targets[0] == ip)
}

/// The annotations ask for management.
pub open spec fn asks_for_management(annotations: Seq<EntryView>) -> bool {
    lookup(annotations, "upnp-controller.io/managed"@) == Some("true"@)
}

/// What is done about a resource: nothing where it is not managed; another look after ten
/// seconds while no address is known; a patch exactly where some A record is outdated;
/// and else another look after a minute.
pub proof fn law_outdated_records_are_patched(
    annotations: Seq<EntryView>,
    endpoints: Seq<EndpointView>,
    wan_ip: Option<Seq<char>>,
)
    ensures
        !asks_for_management(annotations) ==> dns_plan(annotations, endpoints, wan_ip) is Leave,
        asks_for_management(annotations) && wan_ip is None ==> dns_plan(
            annotations,
            endpoints,
            wan_ip,
        ) == DnsPlanView::Requeue(10),
        asks_for_management(annotations) ==> (wan_ip matches Some(ip) ==> {
            let plan = dns_plan(annotations, endpoints, wan_ip);
            let outdated = exists|i: int|
                0 <= i < endpoints.len() && is_outdated(#[trigger] endpoints[i], ip);
            &&& outdated ==> plan is Patch
            &&& !outdated ==> plan == DnsPlanView::Requeue(60)
        }),
{
    if let Some(ip) = wan_ip {
        assert forall|i: int| 0 <= i < endpoints.len() implies is_outdated(
            #[trigger] endpoints[i],
            ip,
        ) == !is_correct(endpoints[i], ip) by {
            let e = endpoints[i];
            if e.targets.len() == 1 && e.targets[0] == ip {
                assert(e.targets =~= seq![ip]);
            } else if e.targets == seq![ip] {
                assert(seq![ip].len() == 1 && seq![ip][0] == ip);
            }
        }
        if exists|i: int| 0 <= i < endpoints.len() && is_outdated(#[trigger] endpoints[i], ip) {
            let i = choose|i: int|
                0 <= i < endpoints.len() && is_outdated(#[trigger] endpoints[i], ip);
            assert(!is_correct(endpoints[i], ip));
        }
    }
}

/// A patch leaves every record in place. Every A record then points to the address alone;
/// its name and lifetime stay, and so does everything of any other record.
pub proof fn law_patch_points_to_the_address(
    annotations: Seq<EntryView>,
    endpoints: Seq<EndpointView>,
    ip: Seq<char>,
    i: int,
)
    requires
        dns_plan(annotations, endpoints, Some(ip)) is Patch,
        0 <= i < endpoints.len(),
    ensures
        ({
            let written = dns_plan(annotations, endpoints, Some(ip))->Patch_0;
            &&& written.len() == endpoints.len()
            &&& written[i].dns_name == endpoints[i].dns_name
            &&& written[i].record_type == endpoints[i].record_type
            &&& written[i].record_ttl == endpoints[i].record_ttl
            &&& if endpoints[i].record_type == "A"@ {
                written[i].targets.len() == 1 && written[i].targets[0] == ip
            } else {
                written[i].targets == endpoints[i].targets
            }
        }),
{
}

/// What was written for one address is settled for that address, and is written anew for
/// any other as soon as there is an A record.
pub proof fn law_new_address_is_written(
    annotations: Seq<EntryView>,
    endpoints: Seq<EndpointView>,
    ip: Seq<char>,
    other: Seq<char>,
)
    requires
        dns_plan(annotations, endpoints, Some(ip)) is Patch,
    ensures
        ({
            let written = dns_plan(annotations, endpoints, Some(ip))->Patch_0;
            let again = dns_plan(annotations, written, Some(other));
            &&& other == ip ==> again == DnsPlanView::Requeue(60)
            &&& other != ip ==> again is Patch
        }),
{
    let written = all_retargeted(endpoints, ip);
    law_outdated_records_are_patched(annotations, endpoints, Some(ip));
    law_outdated_records_are_patched(annotations, written, Some(other));
    let k = choose|i: int| 0 <= i < endpoints.len() && is_outdated(#[trigger] endpoints[i], ip);
    assert(written[k] == retargeted(endpoints[k], ip));
    assert(written[k].targets == seq![ip]);
    if other != ip {
        assert(is_outdated(written[k], other));
    } else {
        assert forall|i: int| 0 <= i < written.len() implies !is_outdated(
            #[trigger] written[i],
            ip,
        ) by {
            assert(written[i] == retargeted(endpoints[i], ip));
        }
    }
}

/// A resource that is written is looked at again after a minute, one that waits after the
/// seconds that the plan names, and one that is not managed when it changes.
pub proof fn law_record_looked_at_again(plan: DnsPlanView)
    ensures
        plan is Patch ==> dns_requeue(plan) == Some(60u64),
        plan matches DnsPlanView::Requeue(secs) ==> dns_requeue(plan) == Some(secs),
        plan is Leave ==> dns_requeue(plan) is None,
{
}

/// A status says what is known of the gateway.
pub open spec fn says_what_is_known(
    status: GatewayStatusView,
    eventing: EventingStateView,
    gateway_url: Seq<char>,
    lan_ip: Option<Seq<char>>,
) -> bool {
    &&& status.external_ip == eventing.current_external_ip
    &&& status.gateway_url == Some(gateway_url)
    &&& status.lan_ip == lan_ip
    &&& status.ready == (eventing.current_external_ip is Some)
    &&& match eventing.subscription {
        Some((sid, expiry)) => status.subscription_id == Some(sid) && status.subscription_expiry
            == Some(expiry),
        None => status.subscription_id is None && status.subscription_expiry is None,
    }
}

/// The published status always says what is known: one that does is left alone, and in
/// place of any other, or of none, one is written that does and that was seen now.
pub proof fn law_published_status_is_current(
    published: Option<GatewayStatusView>,
    eventing: EventingStateView,
    gateway_url: Seq<char>,
    lan_ip: Option<Seq<char>>,
    now: Timestamp,
)
    ensures
        match status_update(published, current_status(eventing, gateway_url, lan_ip, now)) {
            None => published matches Some(status) && says_what_is_known(
                status,
                eventing,
                gateway_url,
                lan_ip,
            ),
            Some(written) => says_what_is_known(written, eventing, gateway_url, lan_ip)
                && written.last_seen == Some(now) && !(published matches Some(status)
                && says_what_is_known(status, eventing, gateway_url, lan_ip)),
        },
{
}

/// When the external address has changed since a status was published, a status with the
/// new address is written.
pub proof fn law_new_external_address_is_published(
    published: GatewayStatusView,
    eventing: EventingStateView,
    gateway_url: Seq<char>,
    lan_ip: Option<Seq<char>>,
    now: Timestamp,
)
    requires
        published.external_ip != eventing.current_external_ip,
    ensures
        status_update(
            Some(published),
            current_status(eventing, gateway_url, lan_ip, now),
        ) matches Some(written) && written.external_ip == eventing.current_external_ip,
{
}

} // verus!
