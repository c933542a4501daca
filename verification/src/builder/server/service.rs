//! The service of the network server.

use crate::builder::meta_data::{prefixed_name, server_prefix};
use crate::crd::spec::server::service::Service as ServiceSettings;
use crate::crd::types::ServiceType;
use crate::crd::Chirpstack;
use crate::k8s::{opt_view, IntOrString, ObjectMeta, Service, ServicePort, ServiceSpec};
use crate::metadata::{app_labels, has_app_labels, make_app_labels};
use vstd::prelude::*;

verus! {

/// The node port of a service: the one the settings name, for a `NodePort`
/// service only.
pub open spec fn node_port_of(settings: ServiceSettings) -> Option<i32> {
    if settings.service_type == ServiceType::NodePort {
        settings.node_port
    } else {
        None
    }
}

/// `p` is a TCP port `port` to container port 8080, named `name`, with the
/// node port of `settings`.
pub open spec fn is_service_port(p: ServicePort, name: Option<Seq<char>>, settings: ServiceSettings) -> bool {
    &&& opt_view(p.name) == name
    &&& p.port == settings.port
    &&& opt_view(p.protocol) == Some("TCP"@)
    &&& p.target_port == Some(IntOrString::Int(8080))
    &&& p.node_port == node_port_of(settings)
}

/// `spec` is a service of the type `settings` ask for with the one port `p`
/// described by `is_service_port`, selecting the pods labelled
/// `app=<app_name>`.
pub open spec fn is_service_spec(spec: ServiceSpec, name: Option<Seq<char>>, settings: ServiceSettings, app_name: Seq<char>) -> bool {
    &&& opt_view(spec.type_) == Some(settings.service_type.spec_name())
    &&& spec.ports is Some
    &&& spec.ports->0@.len() == 1
    &&& is_service_port(spec.ports->0@[0], name, settings)
    &&& has_app_labels(spec.selector, app_name)
    &&& spec.cluster_ip is None
}

/// The one port of a service with the given settings.
pub fn make_service_port(name: Option<String>, settings: &ServiceSettings) -> (p: ServicePort)
    ensures
        is_service_port(p, opt_view(name), *settings),
{
    ServicePort {
        name,
        port: settings.port,
        protocol: Some(String::from_str("TCP")),
        target_port: Some(IntOrString::Int(8080)),
        node_port: if settings.service_type == ServiceType::NodePort {
            settings.node_port
        } else {
            None
        },
    }
}

/// The service of the network server of `chirpstack`: `chirpstack-<name>` in
/// the resource's namespace (or the default one), labelled and selecting
/// `app=chirpstack-<name>`, of the type and on the port the resource asks
/// for, to container port 8080, with the node port for a `NodePort` service.
pub fn build(chirpstack: &Chirpstack) -> (s: Service)
    ensures
        opt_view(s.metadata.name) == Some(prefixed_name(server_prefix(), *chirpstack)),
        opt_view(s.metadata.namespace) == Some(chirpstack.metadata.namespace_or_default()),
        has_app_labels(s.metadata.labels, prefixed_name(server_prefix(), *chirpstack)),
        s.metadata.owner_references is None && s.metadata.annotations is None,
        s.metadata.generate_name is None && s.metadata.uid is None && s.metadata.generation is None,
        s.spec is Some,
        is_service_spec(s.spec->0, None, chirpstack.spec.server.service, prefixed_name(server_prefix(), *chirpstack)),
{
    let mut app_name = String::from_str("chirpstack");
    app_name.append("-");
    let name = chirpstack.metadata.get_name_any();
    app_name.append(name.as_str());
    assert(app_name@ =~= prefixed_name(server_prefix(), *chirpstack));
    let mut metadata = ObjectMeta::empty();
    metadata.name = Some(app_name.clone());
    metadata.namespace = Some(chirpstack.metadata.get_namespace_or_default());
    metadata.labels = Some(make_app_labels(&app_name));
    let settings = &chirpstack.spec.server.service;
    let mut ports: Vec<ServicePort> = Vec::new();
    ports.push(make_service_port(None, settings));
    let spec = ServiceSpec {
        type_: Some(settings.service_type.to_string()),
        ports: Some(ports),
        selector: Some(make_app_labels(&app_name)),
        cluster_ip: None,
    };
    Service { metadata, spec: Some(spec) }
}

/// Every service built from settings has one TCP port, on exactly the port
/// the settings ask for, whatever the port's name, to container port 8080;
/// its type is the one the settings ask for, and it has a node port only as
/// a `NodePort` service, then the one the settings name.
pub proof fn law_service_port_is_configured(
    spec: ServiceSpec,
    name: Option<Seq<char>>,
    settings: ServiceSettings,
    app_name: Seq<char>,
)
    requires
        is_service_spec(spec, name, settings, app_name),
    ensures
        spec.ports->0@.len() == 1,
        spec.ports->0@[0].port == settings.port,
        spec.ports->0@[0].target_port == Some(IntOrString::Int(8080)),
        opt_view(spec.ports->0@[0].protocol) == Some("TCP"@),
        settings.service_type == ServiceType::NodePort ==> spec.ports->0@[0].node_port == settings.node_port,
        settings.service_type == ServiceType::ClusterIP ==> spec.ports->0@[0].node_port is None,
        opt_view(spec.type_) == Some(settings.service_type.spec_name()),
{
}

} // verus!
