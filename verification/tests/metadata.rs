use chirpstack_operator::crd::spec::Spec;
use chirpstack_operator::crd::Chirpstack;
use chirpstack_operator::k8s::ObjectMeta;
use chirpstack_operator::metadata::{metadata_for, MakeMetadata, Metadata};
use chirpstack_operator::string_map::StringMap;

const KIND: &str = "MyCustomResource";
const API_VERSION: &str = "mygroup/v1alpha1";

fn resource_meta(namespace: Option<&str>) -> ObjectMeta {
    let mut meta = ObjectMeta::empty();
    meta.name = Some("test-1".to_string());
    meta.namespace = namespace.map(|n| n.to_string());
    meta.uid = Some("12345".to_string());
    meta
}

fn make_metadata(meta: &ObjectMeta, describer: Option<String>) -> Metadata {
    metadata_for(KIND.to_string(), API_VERSION.to_string(), meta, describer)
}

fn pairs(m: &StringMap) -> Vec<(String, String)> {
    m.to_pairs()
}

fn check_full(metadata: &Metadata, meta: &ObjectMeta, expected_app_name: &str) {
    assert_eq!(metadata.namespace, "test-namespace");
    assert_eq!(metadata.app_name, expected_app_name);

    let expected_labels = vec![("app".to_string(), metadata.app_name.clone())];
    assert_eq!(pairs(&metadata.labels), expected_labels);

    assert_eq!(
        metadata.label_selector.match_labels.as_ref().map(pairs),
        Some(expected_labels.clone())
    );

    assert_eq!(metadata.object_meta.name, Some(metadata.app_name.clone()));
    assert_eq!(metadata.object_meta.namespace, Some("test-namespace".to_string()));
    assert_eq!(metadata.object_meta.labels.as_ref().map(pairs), Some(expected_labels.clone()));

    let owner_refs = metadata.object_meta.owner_references.as_ref().unwrap();
    assert_eq!(owner_refs.len(), 1);
    let owner_ref = &owner_refs[0];
    assert_eq!(owner_ref.api_version, API_VERSION);
    assert_eq!(owner_ref.kind, KIND);
    assert_eq!(owner_ref.name, meta.get_name_any());
    assert_eq!(owner_ref.uid, "12345");
    assert_eq!(owner_ref.controller, Some(true));
    assert_eq!(owner_ref.block_owner_deletion, Some(true));
}

#[test]
fn test_make_metadata_without_describer() {
    let meta = resource_meta(Some("test-namespace"));
    let metadata = make_metadata(&meta, None);
    check_full(&metadata, &meta, "mycustomresource-test-1");
}

#[test]
fn test_make_metadata_with_describer() {
    let meta = resource_meta(Some("test-namespace"));
    let metadata = make_metadata(&meta, Some("desc".to_string()));
    check_full(&metadata, &meta, "mycustomresource-desc-test-1");
}

#[test]
fn test_make_metadata_with_default_namespace() {
    let meta = resource_meta(None);
    let metadata = make_metadata(&meta, None);

    assert_eq!(metadata.namespace, "default");
    let expected_app_name = "mycustomresource-test-1";
    assert_eq!(metadata.app_name, expected_app_name);
}

#[test]
fn metadata_without_namespace_leaves_object_namespace_unset() {
    let meta = resource_meta(None);
    let metadata = make_metadata(&meta, None);
    assert_eq!(metadata.object_meta.namespace, None);
}

#[test]
fn metadata_without_uid_owns_with_empty_uid() {
    let mut meta = resource_meta(Some("ns"));
    meta.uid = None;
    let metadata = make_metadata(&meta, None);
    let owner_refs = metadata.object_meta.owner_references.unwrap();
    assert_eq!(owner_refs[0].uid, "");
}

#[test]
fn metadata_of_unnamed_resource_uses_generate_name() {
    let mut meta = ObjectMeta::empty();
    meta.generate_name = Some("gen-".to_string());
    let metadata = make_metadata(&meta, None);
    assert_eq!(metadata.app_name, "mycustomresource-gen-");
}

#[test]
fn chirpstack_metadata_is_named_after_lowercase_kind() {
    let mut c = Chirpstack::new("test-1", Spec::default());
    c.metadata.namespace = Some("ns".to_string());
    let metadata = c.make_metadata(Some("metrics".to_string()));
    assert_eq!(metadata.app_name, "chirpstack-metrics-test-1");
    assert_eq!(metadata.namespace, "ns");
    let owner = &metadata.object_meta.owner_references.unwrap()[0];
    assert_eq!(owner.kind, "Chirpstack");
    assert_eq!(owner.api_version, "applications.deepshore.de/v1alpha1");
}
