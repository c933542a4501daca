use vstd::prelude::*;

verus! {

/// How the REST API talks to the network server.
#[derive(Debug, Default)]
pub struct Configuration {
    pub insecure: bool,
}

} // verus!
