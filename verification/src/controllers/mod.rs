//! What the controllers decide.

pub mod dns_endpoint_ctrl;
pub mod gateway_ctrl;
pub mod port_forward;
pub mod port_mapping_ctrl;
