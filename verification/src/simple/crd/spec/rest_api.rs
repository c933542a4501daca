//! The REST API part of the compact specification.

pub mod configuration;
pub mod workload;

use super::server::service::Service;
use vstd::prelude::*;

verus! {

/// Whether the REST API runs and, if it is written out, how.
#[derive(Debug, Default)]
pub struct RestApi {
    pub enabled: bool,
    pub workload: Option<workload::Workload>,
    pub service: Option<Service>,
    pub configuration: Option<configuration::Configuration>,
}

} // verus!
