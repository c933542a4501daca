//! Value types used across the compact specification.

pub use crate::crd::types::{Certificate, ConfigFiles, ConfigMapName, EnvVar, Image, KeyValue, ServiceType, WorkloadType};
use vstd::prelude::*;

verus! {

/// The ports on which metrics are exposed, as written in the resource.
#[derive(Debug, Default)]
pub struct Monitoring {
    pub port: String,
    pub target_port: String,
}

/// The registry of an image that names none: `docker.io`.
pub fn default_registry() -> (s: String)
    ensures
        s@ == "docker.io"@,
{
    String::from_str("docker.io")
}

/// The repository of an image that names none: `chirpstack/chirpstack`.
pub fn default_repository() -> (s: String)
    ensures
        s@ == "chirpstack/chirpstack"@,
{
    String::from_str("chirpstack/chirpstack")
}

/// The tag of an image that names none: `4`.
pub fn default_tag() -> (s: String)
    ensures
        s@ == "4"@,
{
    String::from_str("4")
}

} // verus!
