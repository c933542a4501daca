//! Value types used across the specification.

use crate::k8s::IntOrString;
use vstd::prelude::*;

verus! {

/// Whether the network server runs as a deployment or a stateful set.
#[derive(Debug, Default, Clone, Copy, PartialEq, Eq, Structural)]
pub enum WorkloadType {
    #[default]
    Deployment,
    StatefulSet,
}

/// A container image: `registry/repository:tag`.
#[derive(Debug, Default)]
pub struct Image {
    pub registry: String,
    pub repository: String,
    pub tag: String,
}

/// A label or an annotation.
#[derive(Debug, Default)]
pub struct KeyValue {
    pub key: String,
    pub value: String,
}

/// An environment variable with a fixed value.
#[derive(Debug, Default)]
pub struct EnvVar {
    pub name: String,
    pub value: String,
}

/// The type of a service.
#[derive(Debug, Default, Clone, Copy, PartialEq, Eq, Structural)]
pub enum ServiceType {
    #[default]
    ClusterIP,
    NodePort,
}

impl ServiceType {
    /// The name of the service type as Kubernetes spells it.
    pub open spec fn spec_name(self) -> Seq<char> {
        match self {
            ServiceType::ClusterIP => "ClusterIP"@,
            ServiceType::NodePort => "NodePort"@,
        }
    }

    /// The name of the service type as Kubernetes spells it (what the type
    /// displays as).
    pub fn to_string(&self) -> (s: String)
        ensures
            s@ == self.spec_name(),
    {
        match self {
            ServiceType::ClusterIP => String::from_str("ClusterIP"),
            ServiceType::NodePort => String::from_str("NodePort"),
        }
    }
}

/// The config map that holds the configuration files.
#[derive(Debug, Default, PartialEq, Eq, Hash)]
pub struct ConfigFiles {
    pub config_map_name: String,
}

/// A config map, by name.
#[derive(Debug, Default, PartialEq, Eq, Hash)]
pub struct ConfigMapName {
    pub config_map_name: String,
}

/// A certificate mounted from a secret under `/certs/<name>`.
#[derive(Debug, Default, PartialEq, Eq, Hash)]
pub struct Certificate {
    pub name: String,
    pub secret_name: String,
}

/// The ports on which metrics are exposed.
#[derive(Debug, PartialEq, Eq)]
pub struct Monitoring {
    pub port: i32,
    pub target_port: IntOrString,
}

impl Default for Monitoring {
    /// Port 0 and target port 0.
    fn default() -> (m: Monitoring)
        ensures
            m.port == 0,
            m.target_port == IntOrString::Int(0),
    {
        Monitoring { port: 0, target_port: IntOrString::Int(0) }
    }
}

} // verus!
