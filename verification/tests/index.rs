use chirpstack_operator::config_index::{dependency_keys_of, determine_hash, ConfigIndex};
use chirpstack_operator::crd::spec::Spec;
use chirpstack_operator::crd::types::{Certificate, ConfigMapName};
use chirpstack_operator::crd::Chirpstack;
use chirpstack_operator::k8s::ObjectMeta;
use chirpstack_operator::ref_index::ResourceRef;
use chirpstack_operator::simple;

fn resource(name: &str, namespace: Option<&str>, config: &str, secrets: &[&str], cert_secrets: &[&str]) -> Chirpstack {
    let mut c = Chirpstack::new(name, Spec::default());
    c.metadata.namespace = namespace.map(|n| n.to_string());
    c.spec.server.configuration.config_files.config_map_name = config.to_string();
    c.spec.server.configuration.env_secrets = secrets.iter().map(|s| s.to_string()).collect();
    c.spec.server.configuration.certificates = cert_secrets
        .iter()
        .enumerate()
        .map(|(i, s)| Certificate { name: format!("cert{i}"), secret_name: s.to_string() })
        .collect();
    c
}

fn config_map_kind() -> String {
    "ConfigMap".to_string()
}

fn secret_kind() -> String {
    "Secret".to_string()
}

fn object(name: &str, namespace: Option<&str>) -> ObjectMeta {
    let mut m = ObjectMeta::empty();
    m.name = Some(name.to_string());
    m.namespace = namespace.map(|n| n.to_string());
    m
}

fn names(v: &[ResourceRef]) -> Vec<String> {
    let mut n: Vec<String> = v.iter().map(|r| r.name.clone()).collect();
    n.sort();
    n
}

#[test]
fn dependency_keys_list_config_maps_then_secrets() {
    let mut c = resource("a", Some("ns"), "cfg", &["env"], &["tls"]);
    c.spec.server.configuration.adr_plugin_files = Some(ConfigMapName { config_map_name: "adr".to_string() });
    let keys = dependency_keys_of(&c);
    let got: Vec<(String, String, String)> =
        keys.iter().map(|k| (k.kind.clone(), k.namespace.clone(), k.name.clone())).collect();
    let want: Vec<(String, String, String)> = vec![
        ("ConfigMap", "ns", "cfg"),
        ("ConfigMap", "ns", "adr"),
        ("Secret", "ns", "env"),
        ("Secret", "ns", "tls"),
    ]
    .into_iter()
    .map(|(a, b, c)| (a.to_string(), b.to_string(), c.to_string()))
    .collect();
    assert_eq!(got, want);
}

#[test]
fn index_finds_users_of_config_maps_and_secrets() {
    let mut ix: ConfigIndex<Chirpstack> = ConfigIndex::new();
    let a = resource("a", Some("ns"), "cfg", &["env"], &[]);
    let b = resource("b", Some("ns"), "cfg", &[], &["tls"]);
    ix.update(&a);
    ix.update(&b);
    assert_eq!(names(&ix.get_affected(&config_map_kind(), &object("cfg", Some("ns")))), vec!["a", "b"]);
    assert_eq!(names(&ix.get_affected(&secret_kind(), &object("env", Some("ns")))), vec!["a"]);
    assert_eq!(names(&ix.get_affected(&secret_kind(), &object("tls", Some("ns")))), vec!["b"]);
    assert!(ix.get_affected(&config_map_kind(), &object("cfg", Some("other"))).is_empty());
    assert!(ix.get_affected(&secret_kind(), &object("cfg", Some("ns"))).is_empty());
    let refs = ix.get_affected(&secret_kind(), &object("env", Some("ns")));
    assert_eq!(refs[0].namespace, Some("ns".to_string()));
}

#[test]
fn update_refiles_exactly() {
    let mut ix: ConfigIndex<Chirpstack> = ConfigIndex::new();
    ix.update(&resource("a", Some("ns"), "old", &[], &[]));
    ix.update(&resource("a", Some("ns"), "new", &[], &[]));
    assert!(ix.get_affected(&config_map_kind(), &object("old", Some("ns"))).is_empty());
    assert_eq!(names(&ix.get_affected(&config_map_kind(), &object("new", Some("ns")))), vec!["a"]);
    ix.update(&resource("a", Some("ns"), "new", &[], &[]));
    assert_eq!(ix.get_affected(&config_map_kind(), &object("new", Some("ns"))).len(), 1);
}

#[test]
fn remove_forgets_only_that_resource() {
    let mut ix: ConfigIndex<Chirpstack> = ConfigIndex::new();
    let a = resource("a", Some("ns"), "cfg", &[], &[]);
    let b = resource("b", Some("ns"), "cfg", &[], &[]);
    ix.update(&a);
    ix.update(&b);
    ix.remove(&a);
    assert_eq!(names(&ix.get_affected(&config_map_kind(), &object("cfg", Some("ns")))), vec!["b"]);
}

#[test]
fn default_namespace_is_used_for_unnamespaced_objects() {
    let mut ix: ConfigIndex<Chirpstack> = ConfigIndex::new();
    ix.update(&resource("a", None, "cfg", &[], &[]));
    assert_eq!(names(&ix.get_affected(&config_map_kind(), &object("cfg", Some("default")))), vec!["a"]);
    assert_eq!(names(&ix.get_affected(&config_map_kind(), &object("cfg", None))), vec!["a"]);
}

#[test]
fn hash_of_documents() {
    assert_eq!(determine_hash(&vec![]), "47DEQpj8HBSa+/TImW+5JCeuQeRkm5NMpJWZG3hSuFU=");
    assert_eq!(determine_hash(&vec!["a".to_string(), "b".to_string()]), "+44g/C5MPySMYMOb1lLzwTRymLuXe4tNWQO4UFViBgM=");
    assert_eq!(determine_hash(&vec!["ab".to_string()]), "+44g/C5MPySMYMOb1lLzwTRymLuXe4tNWQO4UFViBgM=");
    assert_eq!(
        determine_hash(&vec!["{\"kind\":\"ConfigMap\"}".to_string(), "".to_string()]),
        "n2Ed0e2k32QZmywoKqB8Q5eC7uCJSz8oYZaAEn0kpg0="
    );
}

fn compact(name: &str, config: &str, adr: Option<&str>, secrets: &[&str], cert_secrets: &[&str]) -> simple::crd::Chirpstack {
    let mut c = simple::crd::Chirpstack::new(name, simple::crd::spec::Spec::default());
    c.metadata.namespace = Some("ns".to_string());
    c.spec.server.configuration.config_files.config_map_name = config.to_string();
    c.spec.server.configuration.adr_plugin_files =
        adr.map(|a| ConfigMapName { config_map_name: a.to_string() });
    c.spec.server.configuration.env_secrets = secrets.iter().map(|s| s.to_string()).collect();
    c.spec.server.configuration.certificates = cert_secrets
        .iter()
        .map(|s| Certificate { name: "c".to_string(), secret_name: s.to_string() })
        .collect();
    c
}

#[test]
fn compact_resource_names_its_dependencies() {
    let c = compact("x", "cfg", Some("adr"), &["e1", "e2"], &["t1"]);
    assert_eq!(simple::index::extract_config_map_names(&c), vec!["cfg", "adr"]);
    assert_eq!(simple::index::extract_secret_names(&c), vec!["e1", "e2", "t1"]);
    let c = compact("x", "cfg", None, &[], &[]);
    assert_eq!(simple::index::extract_config_map_names(&c), vec!["cfg"]);
    assert!(simple::index::extract_secret_names(&c).is_empty());
}

#[test]
fn compact_index_and_lock_key() {
    let mut ix: simple::index::Index = simple::index::Index::new();
    ix.update(&compact("x", "cfg", None, &["e"], &[]));
    assert_eq!(names(&ix.get_affected(&secret_kind(), &object("e", Some("ns")))), vec!["x"]);
    let key = simple::locks::lock_key(&compact("x", "cfg", None, &[], &[]));
    assert_eq!((key.kind.as_str(), key.namespace.as_str(), key.name.as_str()), ("Chirpstack", "ns", "x"));
    assert_eq!(
        simple::index::determine_hash(&vec!["ab".to_string()]),
        "+44g/C5MPySMYMOb1lLzwTRymLuXe4tNWQO4UFViBgM="
    );
}

#[test]
fn compact_image_defaults() {
    assert_eq!(simple::crd::types::default_registry(), "docker.io");
    assert_eq!(simple::crd::types::default_repository(), "chirpstack/chirpstack");
    assert_eq!(simple::crd::types::default_tag(), "4");
    let s = simple::crd::spec::server::service::Service::default();
    assert_eq!(s.port, 0);
    let r = simple::crd::spec::rest_api::RestApi::default();
    assert!(!r.enabled && r.workload.is_none() && r.service.is_none() && r.configuration.is_none());
}
