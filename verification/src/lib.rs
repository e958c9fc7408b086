//! Decision logic of a Kubernetes controller that keeps UPnP port mappings on a
//! home router in step with custom resources.

pub mod config;
pub mod controllers;
pub mod crds;
pub mod entries;
pub mod laws;
pub mod lifecycle;
pub mod lists;
pub mod metrics;
pub mod node;
pub mod proxy;
pub mod text;
pub mod time;
pub mod upnp;
