//! The network server part of the compact specification.

pub mod configuration;
pub mod service;

pub use crate::crd::spec::server::workload;
use vstd::prelude::*;

verus! {

/// How the network server runs, how it is reached and how it is configured.
#[derive(Debug, Default)]
pub struct Server {
    pub workload: workload::Workload,
    pub service: service::Service,
    pub configuration: configuration::Configuration,
}

} // verus!
