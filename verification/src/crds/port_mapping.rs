//! The `PortMapping` resource: a port forwarding rule on the router.

use crate::text::opt;
use crate::time::Timestamp;
use vstd::prelude::*;
use vstd::string::*;

verus! {

/// Transport protocol of a port mapping.
#[derive(Debug, Clone, Copy, PartialEq, Eq, Structural)]
pub enum Protocol {
    Tcp,
    Udp,
}

impl Protocol {
    /// The protocol's name as the router and the cluster write it.
    pub open spec fn name(self) -> Seq<char> {
        match self {
            Protocol::Tcp => "TCP"@,
            Protocol::Udp => "UDP"@,
        }
    }

    /// The protocol's name as the router and the cluster write it.
    pub fn to_string(&self) -> (s: String)
        ensures
            s@ == self.name(),
    {
        match self {
            Protocol::Tcp => "TCP".to_owned(),
            Protocol::Udp => "UDP".to_owned(),
        }
    }
}

/// What a `PortMapping` asks for.
#[derive(Debug, Clone)]
pub struct PortMappingSpec {
    pub external_port: u16,
    pub internal_host: String,
    pub internal_port: u16,
    pub protocol: Protocol,
    pub description: Option<String>,
}

/// The view of a [`PortMappingSpec`].
pub struct PortMappingSpecView {
    pub external_port: u16,
    pub internal_host: Seq<char>,
    pub internal_port: u16,
    pub protocol: Protocol,
    pub description: Option<Seq<char>>,
}

impl View for PortMappingSpec {
    type V = PortMappingSpecView;

    open spec fn view(&self) -> PortMappingSpecView {
        PortMappingSpecView {
            external_port: self.external_port,
            internal_host: self.internal_host@,
            internal_port: self.internal_port,
            protocol: self.protocol,
            description: opt(self.description),
        }
    }
}

/// One condition in the status of a `PortMapping`.
#[derive(Debug, Clone)]
pub struct Condition {
    pub type_: String,
    pub status: String,
    pub reason: String,
    pub message: Option<String>,
    pub last_transition_time: Option<Timestamp>,
}

/// The view of a [`Condition`].
pub struct ConditionView {
    pub type_: Seq<char>,
    pub status: Seq<char>,
    pub reason: Seq<char>,
    pub message: Option<Seq<char>>,
    pub last_transition_time: Option<Timestamp>,
}

impl View for Condition {
    type V = ConditionView;

    open spec fn view(&self) -> ConditionView {
        ConditionView {
            type_: self.type_@,
            status: self.status@,
            reason: self.reason@,
            message: opt(self.message),
            last_transition_time: self.last_transition_time,
        }
    }
}

/// What is known of a `PortMapping` on the router.
#[derive(Debug, Clone)]
pub struct PortMappingStatus {
    pub active: bool,
    pub external_ip: Option<String>,
    pub lease_expiry: Option<Timestamp>,
    pub last_renewal: Option<Timestamp>,
    pub conditions: Vec<Condition>,
}

/// The view of a [`PortMappingStatus`].
#[verifier::ext_equal]
pub struct PortMappingStatusView {
    pub active: bool,
    pub external_ip: Option<Seq<char>>,
    pub lease_expiry: Option<Timestamp>,
    pub last_renewal: Option<Timestamp>,
    pub conditions: Seq<ConditionView>,
}

impl View for PortMappingStatus {
    type V = PortMappingStatusView;

    open spec fn view(&self) -> PortMappingStatusView {
        PortMappingStatusView {
            active: self.active,
            external_ip: opt(self.external_ip),
            lease_expiry: self.lease_expiry,
            last_renewal: self.last_renewal,
            conditions: self.conditions@.map_values(|c: Condition| c@),
        }
    }
}

impl Default for PortMappingStatus {
    fn default() -> (status: Self)
        ensures
            !status.active,
            status.external_ip is None,
            status.lease_expiry is None,
            status.last_renewal is None,
            status.conditions@.len() == 0,
    {
        PortMappingStatus {
            active: false,
            external_ip: None,
            lease_expiry: None,
            last_renewal: None,
            conditions: Vec::new(),
        }
    }
}

} // verus!
