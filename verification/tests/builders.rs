use chirpstack_operator::builder;
use chirpstack_operator::builder::meta_data::MetaData;
use chirpstack_operator::builder::pod::make_image_ref;
use chirpstack_operator::crd::spec::server::workload::default_image;
use chirpstack_operator::crd::spec::Spec;
use chirpstack_operator::crd::types::{
    Certificate, ConfigMapName, EnvVar, Image, KeyValue, Monitoring, ServiceType, WorkloadType,
};
use chirpstack_operator::crd::Chirpstack;
use chirpstack_operator::k8s::{IntOrString, ObjectMeta};
use chirpstack_operator::metadata::MakeMetadata;
use chirpstack_operator::string_map::StringMap;

fn sorted(m: &StringMap) -> Vec<(String, String)> {
    let mut v = m.to_pairs();
    v.sort();
    v
}

fn pairs(p: &[(&str, &str)]) -> Vec<(String, String)> {
    let mut v: Vec<(String, String)> = p.iter().map(|(a, b)| (a.to_string(), b.to_string())).collect();
    v.sort();
    v
}

fn network() -> Chirpstack {
    let mut c = Chirpstack::new("net", Spec::default());
    c.metadata.namespace = Some("lora".to_string());
    c.metadata.uid = Some("u-1".to_string());
    let w = &mut c.spec.server.workload;
    w.image = default_image();
    w.replicas = 2;
    w.pod_labels = vec![KeyValue { key: "team".to_string(), value: "iot".to_string() }];
    w.pod_annotations = vec![KeyValue { key: "note".to_string(), value: "x".to_string() }];
    w.extra_env_vars = vec![EnvVar { name: "LOG".to_string(), value: "debug".to_string() }];
    let conf = &mut c.spec.server.configuration;
    conf.config_files.config_map_name = "cfg".to_string();
    conf.env_secrets = vec!["creds".to_string()];
    conf.certificates = vec![Certificate { name: "tls".to_string(), secret_name: "tls-secret".to_string() }];
    conf.adr_plugin_files = Some(ConfigMapName { config_map_name: "adr".to_string() });
    c
}

fn check_owned(meta: &ObjectMeta, name: &str, namespace: Option<&str>) {
    assert_eq!(meta.name.as_deref(), Some(name));
    assert_eq!(meta.namespace.as_deref(), namespace);
    assert_eq!(sorted(meta.labels.as_ref().unwrap()), pairs(&[("app", name)]));
    let owners = meta.owner_references.as_ref().unwrap();
    assert_eq!(owners.len(), 1);
    assert_eq!(owners[0].kind, "Chirpstack");
    assert_eq!(owners[0].name, "net");
    assert_eq!(owners[0].uid, "u-1");
}

#[test]
fn image_reference() {
    let img = Image { registry: "r".to_string(), repository: "a/b".to_string(), tag: "1".to_string() };
    assert_eq!(make_image_ref(&img), "r/a/b:1");
    assert_eq!(make_image_ref(&default_image()), "docker.io/chirpstack/chirpstack:4");
}

#[test]
fn meta_data_of_server_and_rest_api() {
    let c = network();
    let m = MetaData::from(&c);
    assert_eq!(m.app_name, "chirpstack-net");
    check_owned(&m.object_meta, "chirpstack-net", Some("lora"));
    let r = MetaData::new_rest_api(&c);
    assert_eq!(r.app_name, "chirpstack-rest-api-net");
    let mut unnamespaced = network();
    unnamespaced.metadata.namespace = None;
    assert_eq!(MetaData::new_server(&unnamespaced).object_meta.namespace.as_deref(), Some("default"));
}

#[test]
fn server_deployment() {
    let c = network();
    let d = builder::server::deployment::build(&c, "HASH".to_string());
    check_owned(&d.metadata, "chirpstack-net", Some("lora"));
    let spec = d.spec.unwrap();
    assert_eq!(spec.replicas, Some(2));
    assert_eq!(sorted(spec.selector.match_labels.as_ref().unwrap()), pairs(&[("app", "chirpstack-net")]));
    let tmeta = spec.template.metadata.unwrap();
    assert_eq!(sorted(tmeta.labels.as_ref().unwrap()), pairs(&[("app", "chirpstack-net"), ("team", "iot")]));
    assert_eq!(
        sorted(tmeta.annotations.as_ref().unwrap()),
        pairs(&[("note", "x"), ("dependent.resources.hash", "HASH")])
    );
    let pod = spec.template.spec.unwrap();
    assert_eq!(pod.containers.len(), 1);
    let ct = &pod.containers[0];
    assert_eq!(ct.name, "chirpstack");
    assert_eq!(ct.image.as_deref(), Some("docker.io/chirpstack/chirpstack:4"));
    assert_eq!(ct.args, Some(vec!["-c".to_string(), "/etc/chirpstack".to_string()]));
    let env = ct.env.as_ref().unwrap();
    assert_eq!(env.len(), 2);
    assert_eq!(env[0].name, "CHIRPSTACK_SERVER_POD_NAME");
    assert_eq!(env[0].value, None);
    assert_eq!(env[0].value_from.as_ref().unwrap().field_ref.as_ref().unwrap().field_path, "metadata.name");
    assert_eq!((env[1].name.as_str(), env[1].value.as_deref()), ("LOG", Some("debug")));
    let env_from = ct.env_from.as_ref().unwrap();
    assert_eq!(env_from.len(), 1);
    assert_eq!(env_from[0].secret_ref.as_ref().unwrap().name, "creds");
    let ports = ct.ports.as_ref().unwrap();
    assert_eq!((ports[0].container_port, ports[0].name.as_deref()), (8080, Some("web")));
    let mounts: Vec<(String, String, Option<bool>)> = ct
        .volume_mounts
        .as_ref()
        .unwrap()
        .iter()
        .map(|m| (m.name.clone(), m.mount_path.clone(), m.read_only))
        .collect();
    assert_eq!(
        mounts,
        vec![
            ("configuration-chirpstack".to_string(), "/etc/chirpstack".to_string(), Some(true)),
            ("tls".to_string(), "/certs/tls".to_string(), Some(true)),
            ("adr-plugins".to_string(), "/adr-plugins".to_string(), Some(true)),
        ]
    );
    let volumes = pod.volumes.unwrap();
    assert_eq!(volumes.len(), 3);
    assert_eq!(volumes[0].name, "configuration-chirpstack");
    assert_eq!(volumes[0].config_map.as_ref().unwrap().name, "cfg");
    assert_eq!(volumes[1].name, "tls");
    assert_eq!(volumes[1].secret.as_ref().unwrap().secret_name.as_deref(), Some("tls-secret"));
    assert_eq!(volumes[2].name, "adr-plugins");
    assert_eq!(volumes[2].config_map.as_ref().unwrap().name, "adr");
}

#[test]
fn server_deployment_without_namespace_or_secrets() {
    let mut c = network();
    c.metadata.namespace = None;
    c.spec.server.configuration.env_secrets = vec![];
    let d = builder::server::deployment::build(&c, "H".to_string());
    assert_eq!(d.metadata.namespace, None);
    let pod = d.spec.unwrap().template.spec.unwrap();
    assert!(pod.containers[0].env_from.is_none());
}

#[test]
fn server_statefulset() {
    let mut c = network();
    c.spec.server.workload.workload_type = WorkloadType::StatefulSet;
    let s = builder::server::statefulset::build(&c);
    check_owned(&s.metadata, "chirpstack-net", Some("lora"));
    let spec = s.spec.unwrap();
    assert_eq!(spec.replicas, Some(2));
    assert_eq!(spec.service_name, "chirpstack-net");
    let tmeta = spec.template.metadata.unwrap();
    assert_eq!(sorted(tmeta.labels.as_ref().unwrap()), pairs(&[("app", "chirpstack-net"), ("team", "iot")]));
    assert_eq!(sorted(tmeta.annotations.as_ref().unwrap()), pairs(&[("note", "x")]));
}

#[test]
fn server_statefulset_without_pod_annotations() {
    let mut c = Chirpstack::new("cs", Spec::default());
    c.spec.server.workload.workload_type = WorkloadType::StatefulSet;
    c.spec.server.workload.replicas = 2;
    c.spec.server.workload.pod_labels = vec![KeyValue { key: "tier".to_string(), value: "lns".to_string() }];
    let s = builder::server::statefulset::build(&c);
    assert_eq!(s.metadata.name.as_deref(), Some("chirpstack-cs"));
    assert_eq!(s.metadata.namespace.as_deref(), Some("default"));
    let spec = s.spec.unwrap();
    assert_eq!(spec.replicas, Some(2));
    assert_eq!(spec.service_name, "chirpstack-cs");
    assert_eq!(sorted(spec.selector.match_labels.as_ref().unwrap()), pairs(&[("app", "chirpstack-cs")]));
    let tmeta = spec.template.metadata.unwrap();
    assert_eq!(sorted(tmeta.labels.as_ref().unwrap()), pairs(&[("app", "chirpstack-cs"), ("tier", "lns")]));
    assert!(tmeta.annotations.is_none());
}

#[test]
fn server_service() {
    let mut c = network();
    c.spec.server.service.port = 8090;
    c.spec.server.service.node_port = Some(30001);
    let s = builder::server::service::build(&c);
    assert_eq!(s.metadata.name.as_deref(), Some("chirpstack-net"));
    assert_eq!(s.metadata.namespace.as_deref(), Some("lora"));
    assert!(s.metadata.owner_references.is_none());
    let spec = s.spec.unwrap();
    assert_eq!(spec.type_.as_deref(), Some("ClusterIP"));
    let port = &spec.ports.as_ref().unwrap()[0];
    assert_eq!(port.port, 8090);
    assert_eq!(port.protocol.as_deref(), Some("TCP"));
    assert_eq!(port.target_port, Some(IntOrString::Int(8080)));
    assert_eq!(port.node_port, None);
    assert_eq!(sorted(spec.selector.as_ref().unwrap()), pairs(&[("app", "chirpstack-net")]));

    c.spec.server.service.service_type = ServiceType::NodePort;
    let s = builder::server::service::build(&c);
    let spec = s.spec.unwrap();
    assert_eq!(spec.type_.as_deref(), Some("NodePort"));
    assert_eq!(spec.ports.unwrap()[0].node_port, Some(30001));
}

#[test]
fn service_account() {
    let mut c = network();
    c.metadata.namespace = None;
    let sa = builder::server::service_account::build(&c);
    assert_eq!(sa.metadata.name.as_deref(), Some("chirpstack-net"));
    assert_eq!(sa.metadata.namespace.as_deref(), Some("default"));
    assert!(sa.metadata.labels.is_none());
}

#[test]
fn monitoring_service() {
    let mut c = network();
    c.spec.server.configuration.monitoring =
        Some(Monitoring { port: 9100, target_port: IntOrString::String("metrics".to_string()) });
    let s = builder::server::monitoring_service::build(&c);
    check_owned(&s.metadata, "chirpstack-metrics-net", Some("lora"));
    let spec = s.spec.unwrap();
    assert_eq!(spec.type_.as_deref(), Some("ClusterIP"));
    assert_eq!(spec.cluster_ip.as_deref(), Some("None"));
    let port = &spec.ports.as_ref().unwrap()[0];
    assert_eq!(port.port, 9100);
    assert_eq!(port.target_port, Some(IntOrString::String("metrics".to_string())));

    c.spec.server.workload.replicas = 1;
    c.spec.server.configuration.monitoring = None;
    let s = builder::server::monitoring_service::build(&c);
    let spec = s.spec.unwrap();
    assert_eq!(spec.cluster_ip, None);
    let port = &spec.ports.as_ref().unwrap()[0];
    assert_eq!(port.port, 0);
    assert_eq!(port.target_port, Some(IntOrString::Int(0)));
}

#[test]
fn rest_api_deployment_and_service() {
    let mut c = network();
    c.spec.server.service.port = 8090;
    c.spec.rest_api.configuration.insecure = true;
    let d = builder::rest_api::deployment::build(&c);
    check_owned(&d.metadata, "chirpstack-rest-api-net", Some("lora"));
    let spec = d.spec.unwrap();
    assert_eq!(spec.replicas, Some(1));
    let pod = spec.template.spec.unwrap();
    let ct = &pod.containers[0];
    assert_eq!(ct.name, "chirpstack-rest-api");
    assert_eq!(ct.image.as_deref(), Some("docker.io/chirpstack/chirpstack-rest-api:4"));
    assert_eq!(
        ct.args,
        Some(
            ["--server", "chirpstack-rest-api-net:8090", "--bind", "0.0.0.0:8080", "--insecure"]
                .iter()
                .map(|s| s.to_string())
                .collect()
        )
    );
    assert_eq!(ct.ports.as_ref().unwrap()[0].container_port, 8080);
    c.spec.rest_api.configuration.insecure = false;
    let d = builder::rest_api::deployment::build(&c);
    let args = d.spec.unwrap().template.spec.unwrap().containers[0].args.clone().unwrap();
    assert_eq!(args.len(), 4);

    c.spec.rest_api.service.service_type = ServiceType::NodePort;
    c.spec.rest_api.service.node_port = Some(30002);
    let s = builder::rest_api::service::build(&c);
    check_owned(&s.metadata, "chirpstack-rest-api-net", Some("lora"));
    let spec = s.spec.unwrap();
    assert_eq!(spec.type_.as_deref(), Some("NodePort"));
    let port = &spec.ports.unwrap()[0];
    assert_eq!(port.name.as_deref(), Some("web"));
    assert_eq!(port.port, 8080);
    assert_eq!(port.node_port, Some(30002));
}

#[test]
fn own_metadata_agrees_with_object_metadata() {
    let mut c = network();
    c.metadata.namespace = None;
    let own = c.make_metadata(None);
    let server = MetaData::new_server(&c);
    assert_eq!(own.app_name, server.app_name);
    assert_eq!(sorted(&own.labels), sorted(&server.labels));
    assert_eq!(own.object_meta.namespace, None);
    assert_eq!(server.object_meta.namespace.as_deref(), Some("default"));
    let own_rest = c.make_metadata(Some("rest-api".to_string()));
    assert_eq!(own_rest.app_name, MetaData::new_rest_api(&c).app_name);
}

#[test]
fn services_select_their_pods() {
    let c = network();
    let svc = builder::server::service::build(&c);
    let d = builder::server::deployment::build(&c, "H".to_string());
    let selector = sorted(svc.spec.unwrap().selector.as_ref().unwrap());
    let pod_labels = sorted(d.spec.unwrap().template.metadata.unwrap().labels.as_ref().unwrap());
    assert!(selector.iter().all(|l| pod_labels.contains(l)));

    let rsvc = builder::rest_api::service::build(&c);
    let rd = builder::rest_api::deployment::build(&c);
    assert_eq!(
        sorted(rsvc.spec.unwrap().selector.as_ref().unwrap()),
        sorted(rd.spec.unwrap().template.metadata.unwrap().labels.as_ref().unwrap())
    );
}
