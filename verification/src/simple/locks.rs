//! The key under which the operator serializes the reconciliations of one
//! compact resource.

use crate::crd::spec::chirpstack_kind;
use crate::index::ObjectKey;
use crate::metadata::KubeResource;
use crate::simple::crd::Chirpstack;
use vstd::prelude::*;

verus! {

/// The key of the lock of `resource`: kind `Chirpstack`, its namespace (or
/// the default one) and its name.
pub fn lock_key(resource: &Chirpstack) -> (k: ObjectKey)
    ensures
        k@ == (chirpstack_kind(), resource.metadata.namespace_or_default(), resource.metadata.name_any()),
{
    ObjectKey {
        kind: <Chirpstack as KubeResource>::kind(),
        namespace: resource.metadata.get_namespace_or_default(),
        name: resource.metadata.get_name_any(),
    }
}

} // verus!
