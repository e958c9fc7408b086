//! Decisions about the `GatewayStatus` singleton.

use crate::crds::gateway_status::{GatewayStatusStatus, GatewayStatusView, GATEWAY_STATUS_NAME};
use crate::text::{opt, opt_same};
use crate::time::Timestamp;
use crate::upnp::eventing::{EventingState, EventingStateView};
use vstd::prelude::*;
use vstd::string::*;

verus! {

/// Seconds until the singleton is looked at again.
pub const REQUEUE_SECS: u64 = 60;

/// Seconds until a failed reconciliation is tried again.
pub const ERROR_REQUEUE_SECS: u64 = 30;

/// What a look-up of the singleton brought.
#[derive(Debug, Clone, Copy, PartialEq, Eq, Structural)]
pub enum Lookup {
    Found,
    NotFound,
    Failed,
}

/// The name under which the singleton has to be created, where it has to be.
pub fn ensure_singleton(lookup: Lookup) -> (create: Option<String>)
    ensures
        opt(create) == if lookup == Lookup::NotFound {
            Some(GATEWAY_STATUS_NAME@)
        } else {
            None
        },
{
    match lookup {
        Lookup::NotFound => Some(GATEWAY_STATUS_NAME.to_owned()),
        _ => None,
    }
}

/// What is currently known of the gateway.
pub struct Observed<'a> {
    pub eventing: &'a EventingState,
    pub gateway_url: &'a str,
    pub lan_ip: &'a Option<String>,
}

/// The status that says what is known, as of `now`. It is ready once an external
/// address is known.
pub open spec fn current_status(
    eventing: EventingStateView,
    gateway_url: Seq<char>,
    lan_ip: Option<Seq<char>>,
    now: Timestamp,
) -> GatewayStatusView {
    GatewayStatusView {
        external_ip: eventing.current_external_ip,
        gateway_url: Some(gateway_url),
        subscription_id: match eventing.subscription {
            Some((sid, _)) => Some(sid),
            None => None,
        },
        subscription_expiry: match eventing.subscription {
            Some((_, expiry)) => Some(expiry),
            None => None,
        },
        last_seen: Some(now),
        lan_ip,
        ready: eventing.current_external_ip is Some,
    }
}

/// Two statuses say the same of the gateway, whenever it was last seen.
pub open spec fn same_gateway(a: GatewayStatusView, b: GatewayStatusView) -> bool {
    &&& a.external_ip == b.external_ip
    &&& a.gateway_url == b.gateway_url
    &&& a.subscription_id == b.subscription_id
    &&& a.subscription_expiry == b.subscription_expiry
    &&& a.lan_ip == b.lan_ip
    &&& a.ready == b.ready
}

/// The status to write: the current one, unless the published one says the same.
pub open spec fn status_update(
    published: Option<GatewayStatusView>,
    current: GatewayStatusView,
) -> Option<GatewayStatusView> {
    match published {
        Some(old) => if same_gateway(old, current) {
            None
        } else {
            Some(current)
        },
        None => Some(current),
    }
}

/// The view of an optional status.
pub open spec fn published_view(status: Option<GatewayStatusStatus>) -> Option<GatewayStatusView> {
    match status {
        Some(s) => Some(s@),
        None => None,
    }
}

/// Whether two optional instants are the same.
fn same_instant(a: &Option<Timestamp>, b: &Option<Timestamp>) -> (r: bool)
    ensures
        r == (*a == *b),
{
    match (a, b) {
        (Some(x), Some(y)) => *x == *y,
        (None, None) => true,
        _ => false,
    }
}

/// What to do about the singleton.
#[derive(Debug, Clone)]
pub struct GatewayPlan {
    /// The status to write; `None` where the published one still says what is known.
    pub update: Option<GatewayStatusStatus>,
    /// The seconds after which the singleton is looked at again.
    pub requeue_secs: u64,
}

/// Decides what to do about the singleton at `now`.
pub fn reconcile(
    published: &Option<GatewayStatusStatus>,
    observed: &Observed,
    now: Timestamp,
) -> (plan: GatewayPlan)
    ensures
        published_view(plan.update) == status_update(
            published_view(*published),
            current_status(
                observed.eventing@,
                observed.gateway_url@,
                opt(*observed.lan_ip),
                now,
            ),
        ),
        plan.requeue_secs == REQUEUE_SECS,
{
    let (subscription_id, subscription_expiry) = match &observed.eventing.subscription {
        Some(s) => (Some(s.sid.clone()), Some(s.expiry)),
        None => (None, None),
    };
    let current = GatewayStatusStatus {
        external_ip: observed.eventing.current_external_ip.clone(),
        gateway_url: Some(observed.gateway_url.to_owned()),
        subscription_id,
        subscription_expiry,
        last_seen: Some(now),
        lan_ip: observed.lan_ip.clone(),
        ready: observed.eventing.current_external_ip.is_some(),
    };
    let needs_update = match published {
        None => true,
        Some(old) => {
            !opt_same(&old.external_ip, &current.external_ip) || !opt_same(
                &old.gateway_url,
                &current.gateway_url,
            ) || !opt_same(&old.subscription_id, &current.subscription_id) || !same_instant(
                &old.subscription_expiry,
                &current.subscription_expiry,
            ) || !opt_same(&old.lan_ip, &current.lan_ip) || old.ready != current.ready
        },
    };
    let update = if needs_update {
        Some(current)
    } else {
        None
    };
    GatewayPlan { update, requeue_secs: REQUEUE_SECS }
}

/// A status once written is not written again until something else than the time
/// has changed, so that a write does not bring about another one.
pub proof fn law_written_status_is_settled(
    published: Option<GatewayStatusView>,
    eventing: EventingStateView,
    gateway_url: Seq<char>,
    lan_ip: Option<Seq<char>>,
    now: Timestamp,
    later: Timestamp,
)
    ensures
        status_update(published, current_status(eventing, gateway_url, lan_ip, now)) matches Some(
            written,
        ) ==> status_update(
            Some(written),
            current_status(eventing, gateway_url, lan_ip, later),
        ) is None,
{
}

/// The published status is ready exactly when it names an external address.
pub proof fn law_ready_with_external_ip(
    published: Option<GatewayStatusView>,
    eventing: EventingStateView,
    gateway_url: Seq<char>,
    lan_ip: Option<Seq<char>>,
    now: Timestamp,
)
    ensures
        status_update(published, current_status(eventing, gateway_url, lan_ip, now)) matches Some(
            written,
        ) ==> written.ready == (written.external_ip is Some),
{
}

} // verus!
