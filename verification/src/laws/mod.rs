//! What the operations of the library are for, stated over their inputs and results.

pub mod calls;
pub mod discovery;
pub mod forwarding;
pub mod gateway;
pub mod leases;
pub mod proxies;
pub mod records;
pub mod replies;
pub mod runtime;
pub mod settings;
pub mod text;
pub mod views;
