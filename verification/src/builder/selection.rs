//! How the services made for a resource find the pods of its workloads: each
//! service selects by the same `app` label that the pods of its workload
//! carry.

use crate::builder::meta_data::{prefixed_name, rest_api_prefix, server_prefix};
use crate::builder::pod::is_server_pod_template;
use crate::builder::rest_api::service::rest_api_service_name;
use crate::builder::server::service::is_service_spec;
use crate::crd::Chirpstack;
use crate::k8s::{Deployment, PodTemplateSpec, Service};
use crate::metadata::{app_labels, has_app_labels};
use vstd::prelude::*;

verus! {

/// No pod label of the resource is named `app`.
pub open spec fn no_app_pod_label(c: Chirpstack) -> bool {
    forall|i: int|
        0 <= i < c.spec.server.workload.pod_labels@.len() ==> #[trigger] c.spec.server.workload.pod_labels@[i].key@
            != "app"@
}

/// The service of the network server selects the pods of its workload
/// (deployment or stateful set, whatever their annotations): every label the
/// service selects by is carried by those pods, as long as no pod label of
/// the resource is itself named `app`.
pub proof fn law_server_service_selects_server_pods(
    c: Chirpstack,
    s: Service,
    t: PodTemplateSpec,
    annotations: Option<Map<Seq<char>, Seq<char>>>,
)
    requires
        s.spec is Some,
        is_service_spec(s.spec->0, None, c.spec.server.service, prefixed_name(server_prefix(), c)),
        is_server_pod_template(t, c, app_labels(prefixed_name(server_prefix(), c)), annotations),
        no_app_pod_label(c),
    ensures
        s.spec->0.selector is Some,
        s.spec->0.selector->0@.submap_of(t.metadata->0.labels->0@),
{
    crate::builder::pod::law_pods_carry_selected_label(t, c, prefixed_name(server_prefix(), c), annotations);
}

/// The service of the REST API selects exactly by the labels of the pods of
/// the REST API deployment, and by the labels its deployment selects by.
pub proof fn law_rest_api_service_selects_rest_api_pods(c: Chirpstack, s: Service, d: Deployment)
    requires
        s.spec is Some,
        is_service_spec(s.spec->0, Some("web"@), c.spec.rest_api.service, rest_api_service_name(c)),
        d.spec is Some,
        has_app_labels(d.spec->0.selector.match_labels, prefixed_name(rest_api_prefix(), c)),
        d.spec->0.template.metadata is Some,
        has_app_labels(d.spec->0.template.metadata->0.labels, prefixed_name(rest_api_prefix(), c)),
    ensures
        s.spec->0.selector is Some,
        s.spec->0.selector->0@ == d.spec->0.template.metadata->0.labels->0@,
        s.spec->0.selector->0@ == d.spec->0.selector.match_labels->0@,
{
}

} // verus!
