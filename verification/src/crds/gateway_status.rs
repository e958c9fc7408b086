//! The `GatewayStatus` resource: a cluster-scoped singleton that tracks the router's
//! external address and the event subscription.

use crate::text::opt;
use crate::time::Timestamp;
use vstd::prelude::*;

verus! {

/// The name of the singleton.
pub const GATEWAY_STATUS_NAME: &'static str = "default";

/// A `GatewayStatus` asks for nothing.
#[derive(Debug, Clone)]
pub struct GatewayStatusSpec {}

/// What is known of the gateway.
#[derive(Debug, Clone)]
pub struct GatewayStatusStatus {
    pub external_ip: Option<String>,
    pub gateway_url: Option<String>,
    pub subscription_id: Option<String>,
    pub subscription_expiry: Option<Timestamp>,
    pub last_seen: Option<Timestamp>,
    pub lan_ip: Option<String>,
    pub ready: bool,
}

/// The view of a [`GatewayStatusStatus`].
pub struct GatewayStatusView {
    pub external_ip: Option<Seq<char>>,
    pub gateway_url: Option<Seq<char>>,
    pub subscription_id: Option<Seq<char>>,
    pub subscription_expiry: Option<Timestamp>,
    pub last_seen: Option<Timestamp>,
    pub lan_ip: Option<Seq<char>>,
    pub ready: bool,
}

impl View for GatewayStatusStatus {
    type V = GatewayStatusView;

    open spec fn view(&self) -> GatewayStatusView {
        GatewayStatusView {
            external_ip: opt(self.external_ip),
            gateway_url: opt(self.gateway_url),
            subscription_id: opt(self.subscription_id),
            subscription_expiry: self.subscription_expiry,
            last_seen: self.last_seen,
            lan_ip: opt(self.lan_ip),
            ready: self.ready,
        }
    }
}

impl Default for GatewayStatusStatus {
    fn default() -> (status: Self)
        ensures
            status.external_ip is None,
            status.gateway_url is None,
            status.subscription_id is None,
            status.subscription_expiry is None,
            status.last_seen is None,
            status.lan_ip is None,
            !status.ready,
    {
        GatewayStatusStatus {
            external_ip: None,
            gateway_url: None,
            subscription_id: None,
            subscription_expiry: None,
            last_seen: None,
            lan_ip: None,
            ready: false,
        }
    }
}

} // verus!
