use crate::crd::types::Image;
use vstd::prelude::*;

verus! {

/// The pods of the REST API.
#[derive(Debug)]
pub struct Workload {
    pub image: Image,
    pub replicas: i32,
}

impl Default for Workload {
    /// One replica of `docker.io/chirpstack/chirpstack-rest-api:4`.
    fn default() -> (w: Workload)
        ensures
            w.image.registry@ == "docker.io"@,
            w.image.repository@ == "chirpstack/chirpstack-rest-api"@,
            w.image.tag@ == "4"@,
            w.replicas == 1,
    {
        Workload {
            image: Image {
                registry: String::from_str("docker.io"),
                repository: String::from_str("chirpstack/chirpstack-rest-api"),
                tag: String::from_str("4"),
            },
            replicas: 1,
        }
    }
}

} // verus!
