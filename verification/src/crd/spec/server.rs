//! The network server part of the specification.

pub mod configuration;
pub mod service;
pub mod workload;

use vstd::prelude::*;

verus! {

/// How the network server runs, how it is reached and how it is configured.
#[derive(Debug, Default)]
pub struct Server {
    pub workload: workload::Workload,
    pub service: service::Service,
    pub configuration: configuration::Configuration,
}

} // verus!
