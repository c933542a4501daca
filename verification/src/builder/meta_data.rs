//! Metadata of the objects made for a `Chirpstack` resource:
//! `<prefix>-<name>` in the resource's namespace (or the default one),
//! labelled `app=<prefix>-<name>` and owned by the resource.

use crate::crd::spec::{chirpstack_api_version, chirpstack_kind};
use crate::crd::Chirpstack;
use crate::k8s::{opt_view, LabelSelector, ObjectMeta, OwnerReference};
use crate::metadata::{
    app_labels, app_name_for, ascii_lower, has_app_labels, is_ascii_text, is_owned_object_meta, lower_kind, make_app_labels,
    make_owned_object_meta, make_owner_reference, Metadata, is_metadata_for,
};
use crate::string_map::StringMap;
use vstd::prelude::*;

verus! {

/// The name, labels, selector and object metadata of an object made for a
/// resource.
#[derive(Debug)]
pub struct MetaData {
    pub app_name: String,
    pub labels: StringMap,
    pub label_selector: LabelSelector,
    pub object_meta: ObjectMeta,
}

/// The name of the objects with the given prefix made for `c`.
pub open spec fn prefixed_name(prefix: Seq<char>, c: Chirpstack) -> Seq<char> {
    prefix + "-"@ + c.metadata.name_any()
}

/// `m` is the metadata of the objects with name prefix `prefix` made for `c`.
pub open spec fn is_meta_data_for(m: MetaData, c: Chirpstack, prefix: Seq<char>) -> bool {
    let app_name = prefixed_name(prefix, c);
    &&& m.app_name@ == app_name
    &&& m.labels.well_formed()
    &&& m.labels@ == app_labels(app_name)
    &&& has_app_labels(m.label_selector.match_labels, app_name)
    &&& is_owned_object_meta(
        m.object_meta,
        app_name,
        Some(c.metadata.namespace_or_default()),
        chirpstack_kind(),
        chirpstack_api_version(),
        c.metadata,
    )
}

/// The name prefix of the REST API objects.
pub open spec fn rest_api_prefix() -> Seq<char> {
    "chirpstack-rest-api"@
}

/// The name prefix of the network server objects.
pub open spec fn server_prefix() -> Seq<char> {
    "chirpstack"@
}

/// The kind `Chirpstack` in lower case is the name prefix of the network
/// server objects, `chirpstack`.
pub proof fn lemma_lower_chirpstack_kind()
    ensures
        lower_kind(chirpstack_kind()) == server_prefix(),
{
    let k = chirpstack_kind();
    reveal_strlit("chirpstack");
    assert(is_ascii_text(k)) by {
        assert forall|i: int| 0 <= i < k.len() implies (#[trigger] k[i] as u32) < 128 by {
            assert(k[i] == 'C' || k[i] == 'h' || k[i] == 'i' || k[i] == 'r' || k[i] == 'p' || k[i] == 's'
                || k[i] == 't' || k[i] == 'a' || k[i] == 'c' || k[i] == 'k');
        }
    }
    assert(ascii_lower(k) =~= server_prefix());
}

/// The objects that a resource's own metadata names with the describer
/// `rest-api` are the REST API objects: `chirpstack-rest-api-<name>`.
pub proof fn lemma_rest_api_name(c: Chirpstack)
    ensures
        app_name_for(lower_kind(chirpstack_kind()), Some("rest-api"@), c.metadata.name_any()) == prefixed_name(
            rest_api_prefix(),
            c,
        ),
{
    lemma_lower_chirpstack_kind();
    reveal_strlit("chirpstack");
    reveal_strlit("rest-api");
    reveal_strlit("chirpstack-rest-api");
    reveal_strlit("-");
    assert(app_name_for(server_prefix(), Some("rest-api"@), c.metadata.name_any()) =~= prefixed_name(
        rest_api_prefix(),
        c,
    ));
}

/// The objects that a resource's own metadata names without a describer are
/// the network server objects: `chirpstack-<name>`.
pub proof fn lemma_server_name(c: Chirpstack)
    ensures
        app_name_for(lower_kind(chirpstack_kind()), None, c.metadata.name_any()) == prefixed_name(server_prefix(), c),
{
    lemma_lower_chirpstack_kind();
    assert(app_name_for(server_prefix(), None, c.metadata.name_any()) =~= prefixed_name(server_prefix(), c));
}

impl MetaData {
    /// The metadata of the REST API objects: prefix `chirpstack-rest-api`.
    pub fn new_rest_api(chirpstack: &Chirpstack) -> (m: MetaData)
        ensures
            is_meta_data_for(m, *chirpstack, rest_api_prefix()),
    {
        MetaData::new(chirpstack, String::from_str("chirpstack-rest-api"))
    }

    /// The metadata of the network server objects: prefix `chirpstack`.
    pub fn new_server(chirpstack: &Chirpstack) -> (m: MetaData)
        ensures
            is_meta_data_for(m, *chirpstack, server_prefix()),
    {
        MetaData::new(chirpstack, String::from_str("chirpstack"))
    }

    /// The metadata of the objects named `<app_name_prefix>-<name>`.
    pub fn new(chirpstack: &Chirpstack, app_name_prefix: String) -> (m: MetaData)
        ensures
            is_meta_data_for(m, *chirpstack, app_name_prefix@),
    {
        let ghost p = app_name_prefix@;
        let mut app_name = app_name_prefix;
        app_name.append("-");
        let name = chirpstack.metadata.get_name_any();
        app_name.append(name.as_str());
        assert(app_name@ =~= prefixed_name(p, *chirpstack));
        let labels = make_app_labels(&app_name);
        let label_selector = LabelSelector { match_labels: Some(make_app_labels(&app_name)) };
        let owner_reference = make_owner_reference(Chirpstack::kind(), Chirpstack::api_version(), &chirpstack.metadata);
        let namespace = chirpstack.metadata.get_namespace_or_default();
        let object_meta = make_owned_object_meta(&app_name, Some(namespace), owner_reference);
        MetaData { app_name, labels, label_selector, object_meta }
    }

    /// The metadata of the network server objects.
    pub fn from(chirpstack: &Chirpstack) -> (m: MetaData)
        ensures
            is_meta_data_for(m, *chirpstack, server_prefix()),
    {
        MetaData::new_server(chirpstack)
    }
}

/// Two owner references name the same owner in the same way.
pub open spec fn same_owner_reference(a: OwnerReference, b: OwnerReference) -> bool {
    &&& a.api_version@ == b.api_version@
    &&& a.kind@ == b.kind@
    &&& a.name@ == b.name@
    &&& a.uid@ == b.uid@
    &&& a.controller == b.controller
    &&& a.block_owner_deletion == b.block_owner_deletion
}

/// The metadata of the network server objects (`MetaData::new` with prefix
/// `chirpstack`) agrees with the resource's own metadata without a describer
/// (`make_metadata(None)`), and that of the REST API objects (prefix
/// `chirpstack-rest-api`) with its own metadata for the describer `rest-api`:
/// same name, labels, selector and owner; the namespace differs only for a
/// resource without one, which the first places in the default namespace and
/// the second leaves unset.
pub proof fn law_meta_data_agrees_with_own_metadata(
    c: Chirpstack,
    prefix: Seq<char>,
    describer: Option<Seq<char>>,
    m1: MetaData,
    m2: Metadata,
)
    requires
        (prefix == server_prefix() && describer is None) || (prefix == rest_api_prefix() && describer
            == Some("rest-api"@)),
        is_meta_data_for(m1, c, prefix),
        is_metadata_for(m2, lower_kind(chirpstack_kind()), chirpstack_kind(), chirpstack_api_version(), c.metadata, describer),
    ensures
        m1.app_name@ == m2.app_name@,
        m1.labels@ == m2.labels@,
        m1.label_selector.match_labels->0@ == m2.label_selector.match_labels->0@,
        opt_view(m1.object_meta.name) == opt_view(m2.object_meta.name),
        m1.object_meta.labels->0@ == m2.object_meta.labels->0@,
        same_owner_reference(m1.object_meta.owner_references->0@[0], m2.object_meta.owner_references->0@[0]),
        opt_view(m1.object_meta.namespace) == Some(c.metadata.namespace_or_default()),
        opt_view(m2.object_meta.namespace) == opt_view(c.metadata.namespace),
{
    if describer is None {
        lemma_server_name(c);
    } else {
        lemma_rest_api_name(c);
    }
}

} // verus!
