//! The service of the REST API.

use crate::builder::server::service::{is_service_spec, make_service_port};
use crate::crd::spec::{chirpstack_api_version, chirpstack_kind};
use crate::crd::Chirpstack;
use crate::k8s::{opt_view, Service, ServicePort, ServiceSpec};
use crate::builder::meta_data::{lemma_rest_api_name, prefixed_name, rest_api_prefix};
use crate::metadata::{is_owned_object_meta, MakeMetadata};
use vstd::prelude::*;

verus! {

/// The name of the REST API service: `<kind in lower case>-rest-api-<name>`,
/// that is `chirpstack-rest-api-<name>`, the name of the REST API objects.
pub open spec fn rest_api_service_name(c: Chirpstack) -> Seq<char> {
    prefixed_name(rest_api_prefix(), c)
}

/// The service of the REST API of `chirpstack`: `<kind>-rest-api-<name>`,
/// owned by the resource, of the type and on the port the resource asks for
/// its REST API, port `web` to container port 8080, with the node port for a
/// `NodePort` service, selecting the pods labelled with its name.
pub fn build(chirpstack: &Chirpstack) -> (s: Service)
    ensures
        is_owned_object_meta(
            s.metadata,
            rest_api_service_name(*chirpstack),
            opt_view(chirpstack.metadata.namespace),
            chirpstack_kind(),
            chirpstack_api_version(),
            chirpstack.metadata,
        ),
        s.spec is Some,
        is_service_spec(s.spec->0, Some("web"@), chirpstack.spec.rest_api.service, rest_api_service_name(*chirpstack)),
{
    let describer = String::from_str("rest-api");
    proof {
        reveal_strlit("rest-api");
        lemma_rest_api_name(*chirpstack);
    }
    let metadata = chirpstack.make_metadata(Some(describer));
    let settings = &chirpstack.spec.rest_api.service;
    let mut ports: Vec<ServicePort> = Vec::new();
    ports.push(make_service_port(Some(String::from_str("web")), settings));
    let spec = ServiceSpec {
        type_: Some(settings.service_type.to_string()),
        ports: Some(ports),
        selector: Some(metadata.labels),
        cluster_ip: None,
    };
    Service { metadata: metadata.object_meta, spec: Some(spec) }
}

} // verus!
