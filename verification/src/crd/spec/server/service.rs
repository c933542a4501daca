use crate::crd::types::ServiceType;
use vstd::prelude::*;

verus! {

/// How the network server is exposed.
#[derive(Debug)]
pub struct Service {
    pub service_type: ServiceType,
    pub port: i32,
    pub node_port: Option<i32>,
}

/// The port of the service when the resource names none.
pub fn default_port() -> (port: i32)
    ensures
        port == 8080,
{
    8080
}

impl Default for Service {
    fn default() -> (s: Service)
        ensures
            s.service_type == ServiceType::ClusterIP,
            s.port == 8080,
            s.node_port is None,
    {
        Service { service_type: ServiceType::ClusterIP, port: 8080, node_port: None }
    }
}

} // verus!
