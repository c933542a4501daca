use crate::crd::types::{EnvVar, Image, KeyValue, WorkloadType};
use vstd::prelude::*;

verus! {

/// The pods of the network server.
#[derive(Debug, Default)]
pub struct Workload {
    pub workload_type: WorkloadType,
    pub image: Image,
    pub replicas: i32,
    pub pod_annotations: Vec<KeyValue>,
    pub pod_labels: Vec<KeyValue>,
    pub extra_env_vars: Vec<EnvVar>,
}

/// The image of the network server when the resource names none:
/// `docker.io/chirpstack/chirpstack:4`.
pub fn default_image() -> (image: Image)
    ensures
        image.registry@ == "docker.io"@,
        image.repository@ == "chirpstack/chirpstack"@,
        image.tag@ == "4"@,
{
    Image {
        registry: String::from_str("docker.io"),
        repository: String::from_str("chirpstack/chirpstack"),
        tag: String::from_str("4"),
    }
}

} // verus!
