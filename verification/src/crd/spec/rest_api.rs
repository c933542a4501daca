//! The REST API part of the specification.

pub mod configuration;
pub mod workload;

use super::server::service::Service;
use vstd::prelude::*;

verus! {

/// Whether the REST API runs, and how.
#[derive(Debug, Default)]
pub struct RestApi {
    pub enabled: bool,
    pub workload: workload::Workload,
    pub service: Service,
    pub configuration: configuration::Configuration,
}

} // verus!
