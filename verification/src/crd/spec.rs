//! The specification of a ChirpStack deployment and the resource that holds it.

pub mod rest_api;
pub mod server;

use super::status::Status;
use crate::config_index::Config;
use crate::digest::string_views;
use crate::k8s::ObjectMeta;
use crate::metadata::{KubeResource, MakeMetadata};
use vstd::prelude::*;

verus! {

/// What a `Chirpstack` resource asks for: a network server and, optionally,
/// its REST API.
#[derive(Debug, Default)]
pub struct Spec {
    pub server: server::Server,
    pub rest_api: rest_api::RestApi,
}

/// The `Chirpstack` custom resource (group `applications.deepshore.de`,
/// version `v1alpha1`, namespaced).
#[derive(Debug)]
pub struct Chirpstack {
    pub metadata: ObjectMeta,
    pub spec: Spec,
    pub status: Option<Status>,
}

/// The kind of the resource.
pub open spec fn chirpstack_kind() -> Seq<char> {
    seq!['C', 'h', 'i', 'r', 'p', 's', 't', 'a', 'c', 'k']
}

/// The API version of the resource: its group and version.
pub open spec fn chirpstack_api_version() -> Seq<char> {
    "applications.deepshore.de/v1alpha1"@
}

impl Chirpstack {
    /// A resource with the given name and specification, and no status.
    pub fn new(name: &str, spec: Spec) -> (c: Chirpstack)
        ensures
            c.metadata.name is Some,
            c.metadata.name->0@ == name@,
            c.metadata.generate_name is None,
            c.metadata.namespace is None,
            c.metadata.uid is None,
            c.metadata.generation is None,
            c.metadata.labels is None,
            c.metadata.annotations is None,
            c.metadata.owner_references is None,
            c.spec == spec,
            c.status is None,
    {
        let mut metadata = ObjectMeta::empty();
        metadata.name = Some(name.to_owned());
        Chirpstack { metadata, spec, status: None }
    }

    /// The kind of the resource, `Chirpstack`.
    pub fn kind() -> (k: String)
        ensures
            k@ == chirpstack_kind(),
    {
        let k = String::from_str("Chirpstack");
        proof {
            reveal_strlit("Chirpstack");
        }
        k
    }

    /// The API version of the resource.
    pub fn api_version() -> (v: String)
        ensures
            v@ == chirpstack_api_version(),
    {
        String::from_str("applications.deepshore.de/v1alpha1")
    }
}

impl KubeResource for Chirpstack {
    open spec fn spec_metadata(&self) -> ObjectMeta {
        self.metadata
    }

    open spec fn spec_kind() -> Seq<char> {
        chirpstack_kind()
    }

    open spec fn spec_api_version() -> Seq<char> {
        chirpstack_api_version()
    }

    fn metadata(&self) -> (m: &ObjectMeta) {
        &self.metadata
    }

    fn kind() -> (k: String) {
        Chirpstack::kind()
    }

    fn api_version() -> (v: String) {
        Chirpstack::api_version()
    }
}

impl MakeMetadata for Chirpstack {}

/// The names of the secrets of the certificates.
pub open spec fn certificate_secret_names(certs: Seq<super::types::Certificate>) -> Seq<Seq<char>> {
    certs.map_values(|c: super::types::Certificate| c.secret_name@)
}

impl Config for Chirpstack {
    /// The config map of the configuration files, then that of the ADR
    /// plugins if there is one.
    open spec fn config_map_names(&self) -> Seq<Seq<char>> {
        seq![self.spec.server.configuration.config_files.config_map_name@] + match self.spec.server.configuration.adr_plugin_files {
            Some(a) => seq![a.config_map_name@],
            None => Seq::empty(),
        }
    }

    /// The environment secrets, then the secrets of the certificates.
    open spec fn secret_names(&self) -> Seq<Seq<char>> {
        string_views(self.spec.server.configuration.env_secrets@) + certificate_secret_names(
            self.spec.server.configuration.certificates@,
        )
    }

    fn get_config_map_names(&self) -> (v: Vec<String>) {
        let mut names: Vec<String> = Vec::new();
        names.push(self.spec.server.configuration.config_files.config_map_name.clone());
        match &self.spec.server.configuration.adr_plugin_files {
            Some(adr_plugin_files) => names.push(adr_plugin_files.config_map_name.clone()),
            None => {},
        }
        assert(string_views(names@) =~= self.config_map_names());
        names
    }

    fn get_secret_names(&self) -> (v: Vec<String>) {
        let env_secrets = &self.spec.server.configuration.env_secrets;
        let certificates = &self.spec.server.configuration.certificates;
        let mut names: Vec<String> = Vec::new();
        let mut i: usize = 0;
        while i < env_secrets.len()
            invariant
                0 <= i <= env_secrets.len(),
                string_views(names@) == string_views(env_secrets@).take(i as int),
            decreases env_secrets.len() - i,
        {
            let ghost prev = names@;
            let x = env_secrets[i].clone();
            names.push(x);
            proof {
                crate::digest::lemma_string_views_push(prev, x);
                assert(string_views(env_secrets@).take(i + 1) =~= string_views(env_secrets@).take(i as int).push(env_secrets@[i as int]@));
            }
            i = i + 1;
        }
        let mut j: usize = 0;
        while j < certificates.len()
            invariant
                0 <= j <= certificates.len(),
                string_views(names@) == string_views(env_secrets@) + certificate_secret_names(certificates@).take(j as int),
            decreases certificates.len() - j,
        {
            let ghost prev = names@;
            let x = certificates[j].secret_name.clone();
            names.push(x);
            proof {
                crate::digest::lemma_string_views_push(prev, x);
                assert(certificate_secret_names(certificates@).take(j + 1) =~= certificate_secret_names(certificates@).take(j as int).push(certificates@[j as int].secret_name@));
                assert(string_views(names@) =~= string_views(env_secrets@) + certificate_secret_names(certificates@).take(j + 1));
            }
            j = j + 1;
        }
        assert(certificate_secret_names(certificates@).take(certificates@.len() as int) =~= certificate_secret_names(certificates@));
        assert(string_views(env_secrets@).take(env_secrets@.len() as int) =~= string_views(env_secrets@));
        names
    }
}

/// A resource depends on the config map of its configuration files, then on
/// that of its ADR plugins if it names one, and on nothing else among config
/// maps; and on every one of its environment secrets, in order, then on the
/// secret of every certificate, in order, and on nothing else among secrets.
pub proof fn law_dependencies_are_all_named(c: Chirpstack)
    ensures
        c.config_map_names().len() == 1 + if c.spec.server.configuration.adr_plugin_files is Some { 1int } else { 0 },
        c.config_map_names()[0] == c.spec.server.configuration.config_files.config_map_name@,
        c.spec.server.configuration.adr_plugin_files is Some ==> c.config_map_names()[1]
            == c.spec.server.configuration.adr_plugin_files->0.config_map_name@,
        c.secret_names().len() == c.spec.server.configuration.env_secrets@.len()
            + c.spec.server.configuration.certificates@.len(),
        forall|i: int|
            0 <= i < c.spec.server.configuration.env_secrets@.len() ==> c.secret_names()[i]
                == (#[trigger] c.spec.server.configuration.env_secrets@[i])@,
        forall|j: int|
            0 <= j < c.spec.server.configuration.certificates@.len() ==> c.secret_names()[
                c.spec.server.configuration.env_secrets@.len() + j]
                == (#[trigger] c.spec.server.configuration.certificates@[j]).secret_name@,
{
}

} // verus!
