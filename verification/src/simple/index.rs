//! The index from the config maps and secrets that compact `Chirpstack`
//! resources use to those resources, and the hash of those dependencies.

use crate::config_index::ConfigIndex;
use crate::crd::spec::certificate_secret_names;
use crate::digest::{documents_hash, hash_documents, lemma_string_views_push, string_views};
use crate::simple::crd::Chirpstack;
use vstd::prelude::*;

pub use crate::index::ObjectKey;

verus! {

/// The index from config maps and secrets to the compact resources that use
/// them.
pub type Index = ConfigIndex<Chirpstack>;

/// The config maps a resource uses: that of its configuration files, then
/// that of its ADR plugins if it names one.
pub open spec fn config_map_names_of(c: Chirpstack) -> Seq<Seq<char>> {
    seq![c.spec.server.configuration.config_files.config_map_name@] + match c.spec.server.configuration.adr_plugin_files {
        Some(a) => seq![a.config_map_name@],
        None => Seq::empty(),
    }
}

/// The secrets a resource uses: its environment secrets, then the secrets of
/// its certificates.
pub open spec fn secret_names_of(c: Chirpstack) -> Seq<Seq<char>> {
    string_views(c.spec.server.configuration.env_secrets@) + certificate_secret_names(
        c.spec.server.configuration.certificates@,
    )
}

/// The names of the config maps `chirpstack` uses, in order.
pub fn extract_config_map_names(chirpstack: &Chirpstack) -> (v: Vec<String>)
    ensures
        string_views(v@) == config_map_names_of(*chirpstack),
{
    let mut names: Vec<String> = Vec::new();
    names.push(chirpstack.spec.server.configuration.config_files.config_map_name.clone());
    match &chirpstack.spec.server.configuration.adr_plugin_files {
        Some(adr_plugin_files) => names.push(adr_plugin_files.config_map_name.clone()),
        None => {},
    }
    assert(string_views(names@) =~= config_map_names_of(*chirpstack));
    names
}

/// The names of the secrets `chirpstack` uses, in order.
pub fn extract_secret_names(chirpstack: &Chirpstack) -> (v: Vec<String>)
    ensures
        string_views(v@) == secret_names_of(*chirpstack),
{
    let env_secrets = &chirpstack.spec.server.configuration.env_secrets;
    let certificates = &chirpstack.spec.server.configuration.certificates;
    let mut names: Vec<String> = Vec::new();
    let mut i: usize = 0;
    while i < env_secrets.len()
        invariant
            0 <= i <= env_secrets.len(),
            string_views(names@) == string_views(env_secrets@).take(i as int),
        decreases env_secrets.len() - i,
    {
        let ghost prev = names@;
        let x = env_secrets[i].clone();
        names.push(x);
        proof {
            lemma_string_views_push(prev, x);
            assert(string_views(env_secrets@).take(i + 1) =~= string_views(env_secrets@).take(i as int).push(
                env_secrets@[i as int]@,
            ));
        }
        i = i + 1;
    }
    let mut j: usize = 0;
    while j < certificates.len()
        invariant
            0 <= j <= certificates.len(),
            string_views(names@) == string_views(env_secrets@) + certificate_secret_names(certificates@).take(
                j as int,
            ),
        decreases certificates.len() - j,
    {
        let ghost prev = names@;
        let x = certificates[j].secret_name.clone();
        names.push(x);
        proof {
            lemma_string_views_push(prev, x);
            assert(certificate_secret_names(certificates@).take(j + 1) =~= certificate_secret_names(
                certificates@,
            ).take(j as int).push(certificates@[j as int].secret_name@));
            assert(string_views(names@) =~= string_views(env_secrets@) + certificate_secret_names(
                certificates@,
            ).take(j + 1));
        }
        j = j + 1;
    }
    assert(certificate_secret_names(certificates@).take(certificates@.len() as int) =~= certificate_secret_names(
        certificates@,
    ));
    assert(string_views(env_secrets@).take(env_secrets@.len() as int) =~= string_views(env_secrets@));
    names
}

/// The hash of the dependencies of a resource, from their serialized forms
/// `documents` (config maps first, then secrets, each in the order the
/// resource names them; an empty string for one that could not be read):
/// the standard base64 encoding of the SHA-256 digest of their
/// concatenation.
pub fn determine_hash(documents: &Vec<String>) -> (h: String)
    ensures
        h@ == documents_hash(string_views(documents@)),
        h@.len() == 44,
{
    hash_documents(documents)
}

/// A compact resource depends on the config map of its configuration files,
/// then on that of its ADR plugins if it names one; and on every one of its
/// environment secrets, in order, then on the secret of every certificate,
/// in order; and on nothing else.
pub proof fn law_compact_dependencies_are_all_named(c: Chirpstack)
    ensures
        config_map_names_of(c).len() == 1 + if c.spec.server.configuration.adr_plugin_files is Some { 1int } else { 0 },
        config_map_names_of(c)[0] == c.spec.server.configuration.config_files.config_map_name@,
        c.spec.server.configuration.adr_plugin_files is Some ==> config_map_names_of(c)[1]
            == c.spec.server.configuration.adr_plugin_files->0.config_map_name@,
        secret_names_of(c).len() == c.spec.server.configuration.env_secrets@.len()
            + c.spec.server.configuration.certificates@.len(),
        forall|i: int|
            0 <= i < c.spec.server.configuration.env_secrets@.len() ==> secret_names_of(c)[i]
                == (#[trigger] c.spec.server.configuration.env_secrets@[i])@,
        forall|j: int|
            0 <= j < c.spec.server.configuration.certificates@.len() ==> secret_names_of(c)[
                c.spec.server.configuration.env_secrets@.len() + j]
                == (#[trigger] c.spec.server.configuration.certificates@[j]).secret_name@,
{
}

} // verus!
