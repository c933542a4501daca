//! The compact specification of a ChirpStack deployment and the resource
//! that holds it.

pub mod rest_api;
pub mod server;

use super::status::Status;
use crate::config_index::Config;
use crate::crd::spec::{chirpstack_api_version, chirpstack_kind};
use crate::k8s::ObjectMeta;
use crate::metadata::{KubeResource, MakeMetadata};
use crate::simple::index::{config_map_names_of, extract_config_map_names, extract_secret_names, secret_names_of};
use vstd::prelude::*;

verus! {

/// What a compact `Chirpstack` resource asks for: a network server and,
/// optionally, its REST API.
#[derive(Debug, Default)]
pub struct Spec {
    pub server: server::Server,
    pub rest_api: rest_api::RestApi,
}

/// The compact `Chirpstack` custom resource (group
/// `applications.deepshore.de`, version `v1alpha1`, namespaced).
#[derive(Debug)]
pub struct Chirpstack {
    pub metadata: ObjectMeta,
    pub spec: Spec,
    pub status: Option<Status>,
}

impl Chirpstack {
    /// A resource with the given name and specification, and no status.
    pub fn new(name: &str, spec: Spec) -> (c: Chirpstack)
        ensures
            c.metadata.name is Some,
            c.metadata.name->0@ == name@,
            c.metadata.generate_name is None,
            c.metadata.namespace is None,
            c.metadata.uid is None,
            c.metadata.generation is None,
            c.metadata.labels is None,
            c.metadata.annotations is None,
            c.metadata.owner_references is None,
            c.spec == spec,
            c.status is None,
    {
        let mut metadata = ObjectMeta::empty();
        metadata.name = Some(name.to_owned());
        Chirpstack { metadata, spec, status: None }
    }
}

impl KubeResource for Chirpstack {
    open spec fn spec_metadata(&self) -> ObjectMeta {
        self.metadata
    }

    open spec fn spec_kind() -> Seq<char> {
        chirpstack_kind()
    }

    open spec fn spec_api_version() -> Seq<char> {
        chirpstack_api_version()
    }

    fn metadata(&self) -> (m: &ObjectMeta) {
        &self.metadata
    }

    fn kind() -> (k: String) {
        crate::crd::Chirpstack::kind()
    }

    fn api_version() -> (v: String) {
        crate::crd::Chirpstack::api_version()
    }
}

impl MakeMetadata for Chirpstack {}

impl Config for Chirpstack {
    open spec fn config_map_names(&self) -> Seq<Seq<char>> {
        config_map_names_of(*self)
    }

    open spec fn secret_names(&self) -> Seq<Seq<char>> {
        secret_names_of(*self)
    }

    fn get_config_map_names(&self) -> (v: Vec<String>) {
        extract_config_map_names(self)
    }

    fn get_secret_names(&self) -> (v: Vec<String>) {
        extract_secret_names(self)
    }
}

} // verus!
