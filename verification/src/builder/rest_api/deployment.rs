//! The REST API as a deployment.

use crate::builder::meta_data::{prefixed_name, rest_api_prefix, MetaData};
use crate::builder::pod::{image_ref, make_image_ref, port_view};
use crate::crd::spec::{chirpstack_api_version, chirpstack_kind};
use crate::crd::Chirpstack;
use crate::decimal::{decimal, i32_to_string};
use crate::digest::string_views;
use crate::k8s::{opt_view, Container, ContainerPort, Deployment, DeploymentSpec, ObjectMeta, PodSpec, PodTemplateSpec};
use crate::metadata::{app_labels, has_app_labels, is_owned_object_meta};
use vstd::prelude::*;

verus! {

/// The arguments of the REST API: the server address
/// `chirpstack-rest-api-<name>:<network server port>`, the address to listen
/// on, and `--insecure` when the resource asks for it.
pub open spec fn rest_api_args(c: Chirpstack) -> Seq<Seq<char>> {
    seq![
        "--server"@,
        prefixed_name(rest_api_prefix(), c) + ":"@ + decimal(c.spec.server.service.port as int),
        "--bind"@,
        "0.0.0.0:8080"@,
    ] + if c.spec.rest_api.configuration.insecure {
        seq!["--insecure"@]
    } else {
        Seq::empty()
    }
}

/// `c` is the container of the REST API of `chirpstack`.
pub open spec fn is_rest_api_container(c: Container, chirpstack: Chirpstack) -> bool {
    &&& c.name@ == "chirpstack-rest-api"@
    &&& opt_view(c.image) == Some(image_ref(chirpstack.spec.rest_api.workload.image))
    &&& c.args is Some
    &&& string_views(c.args->0@) == rest_api_args(chirpstack)
    &&& c.ports is Some
    &&& c.ports->0@.map_values(|p: ContainerPort| port_view(p)) == seq![(8080i32, None::<Seq<char>>)]
    &&& c.env is None && c.env_from is None && c.volume_mounts is None
}

/// The deployment of the REST API of `chirpstack`: `chirpstack-rest-api-<name>`
/// in the resource's namespace (or the default one) and owned by it, with the
/// replicas the resource asks for, running one container `chirpstack-rest-api`
/// that talks to the address `chirpstack-rest-api-<name>:<server port>`, its
/// pods labelled and selected by `app`.
pub fn build(chirpstack: &Chirpstack) -> (d: Deployment)
    ensures
        is_owned_object_meta(
            d.metadata,
            prefixed_name(rest_api_prefix(), *chirpstack),
            Some(chirpstack.metadata.namespace_or_default()),
            chirpstack_kind(),
            chirpstack_api_version(),
            chirpstack.metadata,
        ),
        d.spec is Some,
        d.spec->0.replicas == Some(chirpstack.spec.rest_api.workload.replicas),
        has_app_labels(d.spec->0.selector.match_labels, prefixed_name(rest_api_prefix(), *chirpstack)),
        d.spec->0.template.metadata is Some,
        has_app_labels(d.spec->0.template.metadata->0.labels, prefixed_name(rest_api_prefix(), *chirpstack)),
        d.spec->0.template.metadata->0.annotations is None,
        d.spec->0.template.metadata->0.name is None && d.spec->0.template.metadata->0.namespace is None,
        d.spec->0.template.metadata->0.generate_name is None && d.spec->0.template.metadata->0.uid is None,
        d.spec->0.template.metadata->0.generation is None && d.spec->0.template.metadata->0.owner_references is None,
        d.spec->0.template.spec is Some,
        d.spec->0.template.spec->0.containers@.len() == 1,
        is_rest_api_container(d.spec->0.template.spec->0.containers@[0], *chirpstack),
        d.spec->0.template.spec->0.volumes is None,
{
    let meta_data = MetaData::new_rest_api(chirpstack);
    let workload = &chirpstack.spec.rest_api.workload;
    let configuration = &chirpstack.spec.rest_api.configuration;
    let image = make_image_ref(&workload.image);
    let mut server = meta_data.app_name.clone();
    server.append(":");
    let port = i32_to_string(chirpstack.spec.server.service.port);
    server.append(port.as_str());
    let mut args: Vec<String> = Vec::new();
    args.push(String::from_str("--server"));
    args.push(server);
    args.push(String::from_str("--bind"));
    args.push(String::from_str("0.0.0.0:8080"));
    let ghost four = string_views(args@);
    if configuration.insecure {
        args.push(String::from_str("--insecure"));
        assert(string_views(args@) =~= rest_api_args(*chirpstack));
    } else {
        assert(string_views(args@) =~= rest_api_args(*chirpstack));
    }
    let mut ports: Vec<ContainerPort> = Vec::new();
    ports.push(ContainerPort { container_port: 8080, name: None });
    assert(ports@.map_values(|p: ContainerPort| port_view(p)) =~= seq![(8080i32, None::<Seq<char>>)]);
    let container = Container {
        name: String::from_str("chirpstack-rest-api"),
        image: Some(image),
        args: Some(args),
        env: None,
        env_from: None,
        ports: Some(ports),
        volume_mounts: None,
    };
    let mut containers: Vec<Container> = Vec::new();
    containers.push(container);
    let mut template_meta = ObjectMeta::empty();
    template_meta.labels = Some(meta_data.labels);
    let template = PodTemplateSpec {
        metadata: Some(template_meta),
        spec: Some(PodSpec { containers, volumes: None }),
    };
    Deployment {
        metadata: meta_data.object_meta,
        spec: Some(DeploymentSpec {
            replicas: Some(workload.replicas),
            selector: meta_data.label_selector,
            template,
        }),
    }
}

/// The REST API always talks to `chirpstack-rest-api-<name>:<network server
/// port>` and listens on `0.0.0.0:8080`; the insecure setting only adds a
/// trailing `--insecure`.
pub proof fn law_rest_api_arguments(ct: Container, c: Chirpstack)
    requires
        is_rest_api_container(ct, c),
    ensures
        string_views(ct.args->0@).len() == if c.spec.rest_api.configuration.insecure { 5int } else { 4 },
        string_views(ct.args->0@)[0] == "--server"@,
        string_views(ct.args->0@)[1] == prefixed_name(rest_api_prefix(), c) + ":"@ + decimal(
            c.spec.server.service.port as int,
        ),
        string_views(ct.args->0@)[2] == "--bind"@,
        string_views(ct.args->0@)[3] == "0.0.0.0:8080"@,
        c.spec.rest_api.configuration.insecure ==> string_views(ct.args->0@)[4] == "--insecure"@,
{
}

} // verus!
