//! The network server as a stateful set.

use crate::builder::meta_data::{prefixed_name, server_prefix, MetaData};
use crate::builder::pod::{
    is_server_pod_template, make_workload_annotations, server_pod_template, stateful_set_annotations,
};
use crate::crd::spec::{chirpstack_api_version, chirpstack_kind};
use crate::crd::types::WorkloadType;
use crate::crd::Chirpstack;
use crate::k8s::{StatefulSet, StatefulSetSpec};
use crate::metadata::{app_labels, has_app_labels, is_owned_object_meta};
use vstd::prelude::*;

verus! {

/// The stateful set of the network server of `chirpstack`: named
/// `chirpstack-<name>`, in the resource's namespace (or the default one) and
/// owned by it, with the replicas the resource asks for, governed by the
/// service of that name and selecting its pods by their `app` label. Its pods
/// carry the pod annotations of the resource, and none when it names none.
pub fn build(chirpstack: &Chirpstack) -> (s: StatefulSet)
    requires
        chirpstack.spec.server.workload.workload_type == WorkloadType::StatefulSet,
    ensures
        is_owned_object_meta(
            s.metadata,
            prefixed_name(server_prefix(), *chirpstack),
            Some(chirpstack.metadata.namespace_or_default()),
            chirpstack_kind(),
            chirpstack_api_version(),
            chirpstack.metadata,
        ),
        s.spec is Some,
        s.spec->0.replicas == Some(chirpstack.spec.server.workload.replicas),
        has_app_labels(s.spec->0.selector.match_labels, prefixed_name(server_prefix(), *chirpstack)),
        s.spec->0.service_name@ == prefixed_name(server_prefix(), *chirpstack),
        is_server_pod_template(
            s.spec->0.template,
            *chirpstack,
            app_labels(prefixed_name(server_prefix(), *chirpstack)),
            stateful_set_annotations(chirpstack.spec.server.workload),
        ),
{
    let meta_data = MetaData::from(chirpstack);
    let w = &chirpstack.spec.server.workload;
    let annotations = if w.pod_annotations.len() == 0 {
        None
    } else {
        Some(make_workload_annotations(w))
    };
    let template = server_pod_template(chirpstack, meta_data.labels, annotations);
    StatefulSet {
        metadata: meta_data.object_meta,
        spec: Some(StatefulSetSpec {
            replicas: Some(chirpstack.spec.server.workload.replicas),
            selector: meta_data.label_selector,
            service_name: meta_data.app_name,
            template,
        }),
    }
}

} // verus!
