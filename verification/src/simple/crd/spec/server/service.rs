use crate::crd::types::ServiceType;
use vstd::prelude::*;

verus! {

/// How the network server is exposed.
#[derive(Debug, Default)]
pub struct Service {
    pub service_type: ServiceType,
    pub port: i32,
    pub node_port: Option<i32>,
}

} // verus!
