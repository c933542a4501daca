//! The parts of Kubernetes objects that this operator reads and writes, as
//! plain values: the metadata of every object and the workloads and services
//! that the manifests describe.

use crate::string_map::StringMap;
use k8s_openapi::Resource;
use vstd::prelude::*;

verus! {

/// Metadata of a Kubernetes object.
#[derive(Debug)]
pub struct ObjectMeta {
    pub name: Option<String>,
    pub generate_name: Option<String>,
    pub namespace: Option<String>,
    pub uid: Option<String>,
    pub generation: Option<i64>,
    pub labels: Option<StringMap>,
    pub annotations: Option<StringMap>,
    pub owner_references: Option<Vec<OwnerReference>>,
}

/// A reference from an object to the object that owns it.
#[derive(Debug)]
pub struct OwnerReference {
    pub api_version: String,
    pub kind: String,
    pub name: String,
    pub uid: String,
    pub controller: Option<bool>,
    pub block_owner_deletion: Option<bool>,
}

/// Selects the objects whose labels include `match_labels`.
#[derive(Debug)]
pub struct LabelSelector {
    pub match_labels: Option<StringMap>,
}

/// A port number or a port name.
#[derive(Debug, PartialEq, Eq)]
pub enum IntOrString {
    Int(i32),
    String(String),
}

/// Reads a field of the pod into an environment variable.
#[derive(Debug)]
pub struct ObjectFieldSelector {
    pub field_path: String,
}

/// Where the value of an environment variable comes from.
#[derive(Debug)]
pub struct EnvVarSource {
    pub field_ref: Option<ObjectFieldSelector>,
}

/// An environment variable of a container.
#[derive(Debug)]
pub struct EnvVar {
    pub name: String,
    pub value: Option<String>,
    pub value_from: Option<EnvVarSource>,
}

/// Imports all keys of a secret as environment variables.
#[derive(Debug)]
pub struct SecretEnvSource {
    pub name: String,
}

/// A source of environment variables.
#[derive(Debug)]
pub struct EnvFromSource {
    pub secret_ref: Option<SecretEnvSource>,
}

/// A port that a container listens on.
#[derive(Debug)]
pub struct ContainerPort {
    pub container_port: i32,
    pub name: Option<String>,
}

/// Where a volume is mounted in a container.
#[derive(Debug)]
pub struct VolumeMount {
    pub name: String,
    pub mount_path: String,
    pub read_only: Option<bool>,
}

/// A container of a pod.
#[derive(Debug)]
pub struct Container {
    pub name: String,
    pub image: Option<String>,
    pub args: Option<Vec<String>>,
    pub env: Option<Vec<EnvVar>>,
    pub env_from: Option<Vec<EnvFromSource>>,
    pub ports: Option<Vec<ContainerPort>>,
    pub volume_mounts: Option<Vec<VolumeMount>>,
}

/// A volume filled from a config map.
#[derive(Debug)]
pub struct ConfigMapVolumeSource {
    pub name: String,
}

/// A volume filled from a secret.
#[derive(Debug)]
pub struct SecretVolumeSource {
    pub secret_name: Option<String>,
}

/// A volume of a pod.
#[derive(Debug)]
pub struct Volume {
    pub name: String,
    pub config_map: Option<ConfigMapVolumeSource>,
    pub secret: Option<SecretVolumeSource>,
}

/// What runs in a pod.
#[derive(Debug)]
pub struct PodSpec {
    pub containers: Vec<Container>,
    pub volumes: Option<Vec<Volume>>,
}

/// The template from which a workload creates its pods.
#[derive(Debug)]
pub struct PodTemplateSpec {
    pub metadata: Option<ObjectMeta>,
    pub spec: Option<PodSpec>,
}

/// The desired state of a deployment.
#[derive(Debug)]
pub struct DeploymentSpec {
    pub replicas: Option<i32>,
    pub selector: LabelSelector,
    pub template: PodTemplateSpec,
}

/// A deployment.
#[derive(Debug)]
pub struct Deployment {
    pub metadata: ObjectMeta,
    pub spec: Option<DeploymentSpec>,
}

/// The desired state of a stateful set.
#[derive(Debug)]
pub struct StatefulSetSpec {
    pub replicas: Option<i32>,
    pub selector: LabelSelector,
    pub service_name: String,
    pub template: PodTemplateSpec,
}

/// A stateful set.
#[derive(Debug)]
pub struct StatefulSet {
    pub metadata: ObjectMeta,
    pub spec: Option<StatefulSetSpec>,
}

/// A port that a service exposes.
#[derive(Debug)]
pub struct ServicePort {
    pub name: Option<String>,
    pub port: i32,
    pub protocol: Option<String>,
    pub target_port: Option<IntOrString>,
    pub node_port: Option<i32>,
}

/// The desired state of a service.
#[derive(Debug)]
pub struct ServiceSpec {
    pub type_: Option<String>,
    pub ports: Option<Vec<ServicePort>>,
    pub selector: Option<StringMap>,
    pub cluster_ip: Option<String>,
}

/// A service.
#[derive(Debug)]
pub struct Service {
    pub metadata: ObjectMeta,
    pub spec: Option<ServiceSpec>,
}

/// A service account.
#[derive(Debug)]
pub struct ServiceAccount {
    pub metadata: ObjectMeta,
}

/// The view of an optional string.
pub open spec fn opt_view(s: Option<String>) -> Option<Seq<char>> {
    match s {
        Some(x) => Some(x@),
        None => None,
    }
}

/// A copy of an optional string.
pub fn clone_opt(s: &Option<String>) -> (r: Option<String>)
    ensures
        opt_view(r) == opt_view(*s),
{
    match s {
        Some(x) => Some(x.clone()),
        None => None,
    }
}

impl ObjectMeta {
    /// Metadata with no field set.
    pub fn empty() -> (m: ObjectMeta)
        ensures
            m.name is None && m.generate_name is None && m.namespace is None,
            m.uid is None && m.generation is None,
            m.labels is None && m.annotations is None && m.owner_references is None,
    {
        ObjectMeta {
            name: None,
            generate_name: None,
            namespace: None,
            uid: None,
            generation: None,
            labels: None,
            annotations: None,
            owner_references: None,
        }
    }

    /// The name of the object, or the prefix from which its name is
    /// generated, or the empty name (as `ResourceExt::name_any` reads it).
    pub open spec fn name_any(&self) -> Seq<char> {
        match self.name {
            Some(n) => n@,
            None => match self.generate_name {
                Some(g) => g@,
                None => Seq::empty(),
            },
        }
    }

    /// The namespace of the object, where it has none the default namespace.
    pub open spec fn namespace_or_default(&self) -> Seq<char> {
        match self.namespace {
            Some(n) => n@,
            None => default_namespace(),
        }
    }

    /// See [`ObjectMeta::name_any`].
    pub fn get_name_any(&self) -> (n: String)
        ensures
            n@ == self.name_any(),
    {
        match &self.name {
            Some(n) => n.clone(),
            None => match &self.generate_name {
                Some(g) => g.clone(),
                None => String::new(),
            },
        }
    }

    /// See [`ObjectMeta::namespace_or_default`].
    pub fn get_namespace_or_default(&self) -> (n: String)
        ensures
            n@ == self.namespace_or_default(),
    {
        match &self.namespace {
            Some(n) => n.clone(),
            None => default_namespace_string(),
        }
    }
}

/// The namespace of objects that name none.
pub open spec fn default_namespace() -> Seq<char> {
    seq!['d', 'e', 'f', 'a', 'u', 'l', 't']
}

/// The namespace of objects that name none, as a string.
pub fn default_namespace_string() -> (s: String)
    ensures
        s@ == default_namespace(),
{
    let s = String::from_str("default");
    proof {
        reveal_strlit("default");
    }
    s
}

/// The kind of config maps.
pub open spec fn config_map_kind_view() -> Seq<char> {
    "ConfigMap"@
}

/// The kind of secrets.
pub open spec fn secret_kind_view() -> Seq<char> {
    "Secret"@
}

/// Reads `k8s_openapi`'s `Resource::KIND` of `ConfigMap`, which that crate
/// defines as "ConfigMap".
#[verifier::external_body]
pub(crate) fn config_map_kind() -> (k: String)
    ensures
        k@ == config_map_kind_view(),
{
    <k8s_openapi::api::core::v1::ConfigMap as Resource>::KIND.to_string()
}

/// Reads `k8s_openapi`'s `Resource::KIND` of `Secret`, which that crate
/// defines as "Secret".
#[verifier::external_body]
pub(crate) fn secret_kind() -> (k: String)
    ensures
        k@ == secret_kind_view(),
{
    <k8s_openapi::api::core::v1::Secret as Resource>::KIND.to_string()
}

} // verus!
