//! The service that exposes the metrics of the network server.

use crate::crd::spec::{chirpstack_api_version, chirpstack_kind};
use crate::crd::types::Monitoring;
use crate::crd::Chirpstack;
use crate::k8s::{opt_view, IntOrString, Service, ServicePort, ServiceSpec};
use crate::builder::meta_data::{lemma_lower_chirpstack_kind, server_prefix};
use crate::metadata::{app_name_for, has_app_labels, is_owned_object_meta, MakeMetadata};
use vstd::prelude::*;

verus! {

/// The name of the metrics service: `<kind in lower case>-metrics-<name>`,
/// that is `chirpstack-metrics-<name>`.
pub open spec fn metrics_app_name(c: Chirpstack) -> Seq<char> {
    app_name_for(server_prefix(), Some("metrics"@), c.metadata.name_any())
}

/// The port the metrics are served on, and the container port behind it:
/// those of the resource's monitoring settings, or 0 and 0 without them.
pub open spec fn metrics_ports(c: Chirpstack) -> (i32, IntOrString) {
    match c.spec.server.configuration.monitoring {
        Some(m) => (m.port, m.target_port),
        None => (0, IntOrString::Int(0)),
    }
}

/// The view of a port number or name.
pub open spec fn int_or_string_view(v: IntOrString) -> Result<i32, Seq<char>> {
    match v {
        IntOrString::Int(i) => Ok(i),
        IntOrString::String(s) => Err(s@),
    }
}

/// A copy of a port number or name.
pub fn copy_int_or_string(v: &IntOrString) -> (r: IntOrString)
    ensures
        int_or_string_view(r) == int_or_string_view(*v),
{
    match v {
        IntOrString::Int(i) => IntOrString::Int(*i),
        IntOrString::String(s) => IntOrString::String(s.clone()),
    }
}

/// The metrics service of `chirpstack`: `<kind>-metrics-<name>`, owned by the
/// resource, a `ClusterIP` service on the monitoring port to the monitoring
/// target port, selecting the pods labelled with that name; headless (cluster
/// IP `None`) when the network server runs more than one replica.
pub fn build(chirpstack: &Chirpstack) -> (s: Service)
    ensures
        is_owned_object_meta(
            s.metadata,
            metrics_app_name(*chirpstack),
            opt_view(chirpstack.metadata.namespace),
            chirpstack_kind(),
            chirpstack_api_version(),
            chirpstack.metadata,
        ),
        s.spec is Some,
        opt_view(s.spec->0.type_) == Some("ClusterIP"@),
        s.spec->0.ports is Some,
        s.spec->0.ports->0@.len() == 1,
        s.spec->0.ports->0@[0].name is None,
        s.spec->0.ports->0@[0].port == metrics_ports(*chirpstack).0,
        opt_view(s.spec->0.ports->0@[0].protocol) == Some("TCP"@),
        s.spec->0.ports->0@[0].target_port is Some,
        int_or_string_view(s.spec->0.ports->0@[0].target_port->0) == int_or_string_view(metrics_ports(*chirpstack).1),
        s.spec->0.ports->0@[0].node_port is None,
        has_app_labels(s.spec->0.selector, metrics_app_name(*chirpstack)),
        opt_view(s.spec->0.cluster_ip) == if chirpstack.spec.server.workload.replicas > 1 {
            Some("None"@)
        } else {
            None::<Seq<char>>
        },
{
    let describer = String::from_str("metrics");
    proof {
        reveal_strlit("metrics");
        lemma_lower_chirpstack_kind();
    }
    let metadata = chirpstack.make_metadata(Some(describer));
    let (port, target_port) = match &chirpstack.spec.server.configuration.monitoring {
        Some(m) => (m.port, copy_int_or_string(&m.target_port)),
        None => {
            let d = Monitoring::default();
            (d.port, d.target_port)
        },
    };
    let mut ports: Vec<ServicePort> = Vec::new();
    ports.push(ServicePort {
        name: None,
        port,
        protocol: Some(String::from_str("TCP")),
        target_port: Some(target_port),
        node_port: None,
    });
    let spec = ServiceSpec {
        type_: Some(String::from_str("ClusterIP")),
        ports: Some(ports),
        selector: Some(metadata.labels),
        cluster_ip: if chirpstack.spec.server.workload.replicas > 1 {
            Some(String::from_str("None"))
        } else {
            None
        },
    };
    Service { metadata: metadata.object_meta, spec: Some(spec) }
}

} // verus!
