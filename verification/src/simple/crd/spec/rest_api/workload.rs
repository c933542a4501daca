use crate::crd::types::Image;
use vstd::prelude::*;

verus! {

/// The pods of the REST API.
#[derive(Debug, Default)]
pub struct Workload {
    pub image: Image,
    pub replicas: i32,
}

} // verus!
