use vstd::prelude::*;

verus! {

/// How the REST API talks to the network server.
#[derive(Debug, Default)]
pub struct Configuration {
    pub insecure: bool,
}

/// Whether the REST API connects without TLS when the resource does not say.
pub fn default_insecure() -> (b: bool)
    ensures
        b,
{
    true
}

} // verus!
