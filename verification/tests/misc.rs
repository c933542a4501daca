use chirpstack_operator::crd::spec::rest_api::configuration::default_insecure;
use chirpstack_operator::crd::spec::rest_api::workload::Workload as RestApiWorkload;
use chirpstack_operator::crd::spec::server::service::{default_port, Service};
use chirpstack_operator::crd::spec::server::workload::default_image;
use chirpstack_operator::crd::types::{Monitoring, ServiceType};
use chirpstack_operator::crd::Chirpstack;
use chirpstack_operator::decimal::i32_to_string;
use chirpstack_operator::k8s::{default_namespace_string, IntOrString};
use chirpstack_operator::string_map::StringMap;
use chirpstack_operator::version::{get_version_info_long, get_version_info_short, GitInfo};

#[test]
fn decimal_strings() {
    for n in [0, 7, -7, 8080, 30001, -42, i32::MAX, i32::MIN] {
        assert_eq!(i32_to_string(n), n.to_string());
    }
}

#[test]
fn crd_defaults() {
    let img = default_image();
    assert_eq!((img.registry.as_str(), img.repository.as_str(), img.tag.as_str()), ("docker.io", "chirpstack/chirpstack", "4"));
    assert_eq!(default_port(), 8080);
    assert!(default_insecure());
    let s = Service::default();
    assert_eq!((s.service_type, s.port, s.node_port), (ServiceType::ClusterIP, 8080, None));
    let w = RestApiWorkload::default();
    assert_eq!(w.image.repository, "chirpstack/chirpstack-rest-api");
    assert_eq!(w.replicas, 1);
    assert_eq!(Monitoring::default(), Monitoring { port: 0, target_port: IntOrString::Int(0) });
    assert_eq!(ServiceType::NodePort.to_string(), "NodePort");
    assert_eq!(ServiceType::ClusterIP.to_string(), "ClusterIP");
}

#[test]
fn kinds_and_names() {
    assert_eq!(Chirpstack::kind(), "Chirpstack");
    assert_eq!(Chirpstack::api_version(), "applications.deepshore.de/v1alpha1");
    assert_eq!(default_namespace_string(), "default");
}

#[test]
fn string_map_keeps_one_value_per_key() {
    let mut m = StringMap::new();
    assert!(m.is_empty());
    m.insert("a".to_string(), "1".to_string());
    m.insert("b".to_string(), "2".to_string());
    m.insert("a".to_string(), "3".to_string());
    assert_eq!(m.len(), 2);
    assert_eq!(m.get(&"a".to_string()).map(|s| s.as_str()), Some("3"));
    assert_eq!(m.get(&"c".to_string()), None);
    assert_eq!(m.duplicate().len(), 2);
}

#[test]
fn version_lines() {
    assert_eq!(get_version_info_short("op", "1.2.3"), "op v1.2.3");
    let git = Some(GitInfo { branch: Some("main".to_string()), commit_short_id: "abc123".to_string(), dirty: true });
    assert_eq!(get_version_info_long("op", "1.2.3", &git), Some("op v1.2.3 main abc123!!!".to_string()));
    let clean = Some(GitInfo { branch: Some("main".to_string()), commit_short_id: "abc123".to_string(), dirty: false });
    assert_eq!(get_version_info_long("op", "1.2.3", &clean), Some("op v1.2.3 main abc123".to_string()));
    let detached = Some(GitInfo { branch: None, commit_short_id: "abc123".to_string(), dirty: false });
    assert_eq!(get_version_info_long("op", "1.2.3", &detached), None);
    assert_eq!(get_version_info_long("op", "1.2.3", &None), None);
}
