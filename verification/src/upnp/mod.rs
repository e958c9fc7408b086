//! The UPnP side: what is read from the router and what is sent to it.

pub mod discovery;
pub mod eventing;
pub mod port_mapping;
pub mod xml;
