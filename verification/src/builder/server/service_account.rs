//! The service account of the network server.

use crate::builder::meta_data::{prefixed_name, server_prefix};
use crate::crd::Chirpstack;
use crate::k8s::{opt_view, ObjectMeta, ServiceAccount};
use vstd::prelude::*;

verus! {

/// The service account `chirpstack-<name>` in the resource's namespace (or
/// the default one), with no other metadata.
pub fn build(chirpstack: &Chirpstack) -> (sa: ServiceAccount)
    ensures
        opt_view(sa.metadata.name) == Some(prefixed_name(server_prefix(), *chirpstack)),
        opt_view(sa.metadata.namespace) == Some(chirpstack.metadata.namespace_or_default()),
        sa.metadata.labels is None && sa.metadata.annotations is None,
        sa.metadata.owner_references is None,
        sa.metadata.generate_name is None && sa.metadata.uid is None && sa.metadata.generation is None,
{
    let mut sa_name = String::from_str("chirpstack");
    sa_name.append("-");
    let name = chirpstack.metadata.get_name_any();
    sa_name.append(name.as_str());
    assert(sa_name@ =~= prefixed_name(server_prefix(), *chirpstack));
    let mut metadata = ObjectMeta::empty();
    metadata.name = Some(sa_name);
    metadata.namespace = Some(chirpstack.metadata.get_namespace_or_default());
    ServiceAccount { metadata }
}

} // verus!
