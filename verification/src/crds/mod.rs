//! The custom resources, as plain values.

pub mod gateway_status;
pub mod port_mapping;
