//! The network server as a deployment.

use crate::builder::pod::{is_server_pod_template, make_workload_annotations, server_annotations, server_pod_template};
use crate::string_map::StringMap;
use crate::crd::spec::{chirpstack_api_version, chirpstack_kind};
use crate::crd::types::WorkloadType;
use crate::crd::Chirpstack;
use crate::k8s::{opt_view, Deployment, DeploymentSpec};
use crate::builder::meta_data::{lemma_server_name, prefixed_name, server_prefix};
use crate::metadata::{app_labels, has_app_labels, is_owned_object_meta, MakeMetadata};
use vstd::prelude::*;

verus! {

/// The name of the objects made through the resource's own metadata:
/// `<kind in lower case>-<name>`, that is `chirpstack-<name>`.
pub open spec fn own_app_name(c: Chirpstack) -> Seq<char> {
    prefixed_name(server_prefix(), c)
}

/// The deployment of the network server of `chirpstack`, its pods carrying
/// the hash of the dependencies `dependent_hash`: named after the resource,
/// in its namespace and owned by it, with the replicas the resource asks for,
/// selecting its pods by their `app` label.
pub fn build(chirpstack: &Chirpstack, dependent_hash: String) -> (d: Deployment)
    requires
        chirpstack.spec.server.workload.workload_type == WorkloadType::Deployment,
    ensures
        is_owned_object_meta(
            d.metadata,
            own_app_name(*chirpstack),
            opt_view(chirpstack.metadata.namespace),
            chirpstack_kind(),
            chirpstack_api_version(),
            chirpstack.metadata,
        ),
        d.spec is Some,
        d.spec->0.replicas == Some(chirpstack.spec.server.workload.replicas),
        has_app_labels(d.spec->0.selector.match_labels, own_app_name(*chirpstack)),
        is_server_pod_template(
            d.spec->0.template,
            *chirpstack,
            app_labels(own_app_name(*chirpstack)),
            Some(server_annotations(chirpstack.spec.server.workload, dependent_hash@)),
        ),
{
    let metadata = chirpstack.make_metadata(None);
    proof {
        lemma_server_name(*chirpstack);
    }
    let mut annotations: StringMap = make_workload_annotations(&chirpstack.spec.server.workload);
    annotations.insert(String::from_str("dependent.resources.hash"), dependent_hash);
    proof {
        reveal_strlit("dependent.resources.hash");
    }
    let template = server_pod_template(chirpstack, metadata.labels, Some(annotations));
    Deployment {
        metadata: metadata.object_meta,
        spec: Some(DeploymentSpec {
            replicas: Some(chirpstack.spec.server.workload.replicas),
            selector: metadata.label_selector,
            template,
        }),
    }
}

} // verus!
