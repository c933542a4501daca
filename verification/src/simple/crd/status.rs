//! The status that the operator writes into a compact `Chirpstack` resource.

pub use crate::crd::status::{Field, State};
use vstd::prelude::*;

verus! {

/// Where the checking of the resource and its reconciliation stand.
#[derive(Debug, Default)]
pub struct Status {
    pub checking: Field,
    pub reconciling: Field,
}

} // verus!
