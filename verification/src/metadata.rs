//! Metadata shared by the objects made for a custom resource: a name derived
//! from the resource's kind and name, an `app` label carrying that name, a
//! selector for that label, and an owner reference back to the resource.

use crate::k8s::{default_namespace, opt_view, LabelSelector, ObjectMeta, OwnerReference};
use crate::string_map::StringMap;
use vstd::prelude::*;

verus! {

/// A Kubernetes resource type of this library: its kind, its API version,
/// and the metadata of each resource.
pub trait KubeResource: Sized {
    /// The metadata of the resource.
    spec fn spec_metadata(&self) -> ObjectMeta;

    /// The kind of the resource type.
    spec fn spec_kind() -> Seq<char>;

    /// The API version (group and version) of the resource type.
    spec fn spec_api_version() -> Seq<char>;

    /// The metadata of the resource.
    fn metadata(&self) -> (m: &ObjectMeta)
        ensures
            *m == self.spec_metadata(),
    ;

    /// The kind of the resource type.
    fn kind() -> (k: String)
        ensures
            k@ == Self::spec_kind(),
    ;

    /// The API version of the resource type.
    fn api_version() -> (v: String)
        ensures
            v@ == Self::spec_api_version(),
    ;
}

/// The lower-case form of `s`, as `str::to_lowercase` computes it.
pub uninterp spec fn lowercase(s: Seq<char>) -> Seq<char>;

/// Every character of `s` is ASCII.
pub open spec fn is_ascii_text(s: Seq<char>) -> bool {
    forall|i: int| 0 <= i < s.len() ==> (#[trigger] s[i] as u32) < 128
}

/// The lower-case form of an ASCII character: `A`..`Z` become `a`..`z`,
/// every other character stays.
pub open spec fn ascii_lower_char(c: char) -> char {
    if 65 <= (c as u32) && (c as u32) <= 90 {
        ((c as u32) + 32) as char
    } else {
        c
    }
}

/// The lower-case form of an ASCII text, character by character.
pub open spec fn ascii_lower(s: Seq<char>) -> Seq<char> {
    s.map_values(|c: char| ascii_lower_char(c))
}

/// The lower-case form of a kind: for an ASCII kind its letters in lower
/// case, otherwise what `str::to_lowercase` gives.
pub open spec fn lower_kind(s: Seq<char>) -> Seq<char> {
    if is_ascii_text(s) {
        ascii_lower(s)
    } else {
        lowercase(s)
    }
}

/// Calls `str::to_lowercase`. Claims that the result is the function
/// `lowercase` of the input and, for an ASCII input, the input with `A`..`Z`
/// replaced by `a`..`z` (the Unicode lower-case mapping of ASCII characters,
/// which the documentation of `to_lowercase` and of `to_ascii_lowercase`
/// describes).
#[verifier::external_body]
fn to_lowercase(s: &str) -> (r: String)
    ensures
        r@ == lowercase(s@),
        is_ascii_text(s@) ==> r@ == ascii_lower(s@),
{
    s.to_lowercase()
}

/// The metadata of the objects made for one resource.
#[derive(Debug)]
pub struct Metadata {
    pub namespace: String,
    pub app_name: String,
    pub labels: StringMap,
    pub label_selector: LabelSelector,
    pub object_meta: ObjectMeta,
}

/// The map `{"app": app_name}`.
pub open spec fn app_labels(app_name: Seq<char>) -> Map<Seq<char>, Seq<char>> {
    map!["app"@ => app_name]
}

/// The name of the objects made for a resource named `name` of the kind
/// whose lower-case form is `lower_kind`: `<kind>-<describer>-<name>`, or
/// `<kind>-<name>` without a describer.
pub open spec fn app_name_for(lower_kind: Seq<char>, describer: Option<Seq<char>>, name: Seq<char>) -> Seq<char> {
    lower_kind + match describer {
        Some(d) => "-"@ + d,
        None => Seq::empty(),
    } + "-"@ + name
}

/// `r` is the owner reference, as a controller that blocks deletion, to the
/// resource with metadata `meta` of the given kind and API version; a missing
/// uid reads as the empty string.
pub open spec fn is_owner_reference(r: OwnerReference, kind: Seq<char>, api_version: Seq<char>, meta: ObjectMeta) -> bool {
    &&& r.api_version@ == api_version
    &&& r.kind@ == kind
    &&& r.name@ == meta.name_any()
    &&& r.uid@ == match meta.uid {
        Some(u) => u@,
        None => Seq::empty(),
    }
    &&& r.controller == Some(true)
    &&& r.block_owner_deletion == Some(true)
}

/// `labels` is present, well formed and equal to `{"app": app_name}`.
pub open spec fn has_app_labels(labels: Option<StringMap>, app_name: Seq<char>) -> bool {
    labels is Some && labels->0.well_formed() && labels->0@ == app_labels(app_name)
}

/// `om` is object metadata with the given name, namespace and `app` label,
/// owned by the resource with metadata `owner` of the given kind and API
/// version, and nothing else set.
pub open spec fn is_owned_object_meta(
    om: ObjectMeta,
    app_name: Seq<char>,
    namespace: Option<Seq<char>>,
    kind: Seq<char>,
    api_version: Seq<char>,
    owner: ObjectMeta,
) -> bool {
    &&& opt_view(om.name) == Some(app_name)
    &&& opt_view(om.namespace) == namespace
    &&& has_app_labels(om.labels, app_name)
    &&& om.owner_references is Some
    &&& om.owner_references->0@.len() == 1
    &&& is_owner_reference(om.owner_references->0@[0], kind, api_version, owner)
    &&& om.generate_name is None && om.uid is None && om.generation is None
    &&& om.annotations is None
}

/// `m` is the metadata for the objects made for the resource with metadata
/// `meta`, whose kind is `kind` (`lower_kind` in lower case).
pub open spec fn is_metadata_for(
    m: Metadata,
    lower_kind: Seq<char>,
    kind: Seq<char>,
    api_version: Seq<char>,
    meta: ObjectMeta,
    describer: Option<Seq<char>>,
) -> bool {
    let app_name = app_name_for(lower_kind, describer, meta.name_any());
    &&& m.app_name@ == app_name
    &&& m.namespace@ == meta.namespace_or_default()
    &&& m.labels.well_formed()
    &&& m.labels@ == app_labels(app_name)
    &&& has_app_labels(m.label_selector.match_labels, app_name)
    &&& is_owned_object_meta(m.object_meta, app_name, opt_view(meta.namespace), kind, api_version, meta)
}

/// The map `{"app": app_name}`.
pub fn make_app_labels(app_name: &String) -> (m: StringMap)
    ensures
        m.well_formed(),
        m@ == app_labels(app_name@),
{
    let mut m = StringMap::new();
    m.insert(String::from_str("app"), app_name.clone());
    assert(m@ =~= app_labels(app_name@));
    m
}

/// The owner reference to the resource with metadata `meta`.
pub fn make_owner_reference(kind: String, api_version: String, meta: &ObjectMeta) -> (r: OwnerReference)
    ensures
        is_owner_reference(r, kind@, api_version@, *meta),
{
    OwnerReference {
        api_version,
        kind,
        name: meta.get_name_any(),
        uid: match &meta.uid {
            Some(u) => u.clone(),
            None => String::new(),
        },
        controller: Some(true),
        block_owner_deletion: Some(true),
    }
}

/// Object metadata with the given name and namespace, the `app` label and
/// the owner reference, and nothing else.
pub fn make_owned_object_meta(
    app_name: &String,
    namespace: Option<String>,
    owner_reference: OwnerReference,
) -> (om: ObjectMeta)
    ensures
        opt_view(om.name) == Some(app_name@),
        opt_view(om.namespace) == opt_view(namespace),
        has_app_labels(om.labels, app_name@),
        om.owner_references is Some,
        om.owner_references->0@ == seq![owner_reference],
        om.generate_name is None && om.uid is None && om.generation is None,
        om.annotations is None,
{
    let mut owner_references: Vec<OwnerReference> = Vec::new();
    owner_references.push(owner_reference);
    ObjectMeta {
        name: Some(app_name.clone()),
        generate_name: None,
        namespace,
        uid: None,
        generation: None,
        labels: Some(make_app_labels(app_name)),
        annotations: None,
        owner_references: Some(owner_references),
    }
}

/// The metadata for the objects made for the resource with metadata `meta`
/// of the given kind and API version, named after the kind in lower case.
pub fn metadata_for(kind: String, api_version: String, meta: &ObjectMeta, describer: Option<String>) -> (m: Metadata)
    ensures
        is_metadata_for(m, lower_kind(kind@), kind@, api_version@, *meta, opt_view(describer)),
{
    let ghost lk = lower_kind(kind@);
    let ghost dv = opt_view(describer);
    let mut app_name = to_lowercase(kind.as_str());
    match &describer {
        Some(d) => {
            app_name.append("-");
            app_name.append(d.as_str());
        },
        None => {},
    }
    app_name.append("-");
    let name = meta.get_name_any();
    app_name.append(name.as_str());
    assert(app_name@ =~= app_name_for(lk, dv, meta.name_any()));
    let labels = make_app_labels(&app_name);
    let label_selector = LabelSelector { match_labels: Some(make_app_labels(&app_name)) };
    let owner_reference = make_owner_reference(kind, api_version, meta);
    let object_meta = make_owned_object_meta(&app_name, crate::k8s::clone_opt(&meta.namespace), owner_reference);
    let namespace = meta.get_namespace_or_default();
    Metadata { namespace, app_name, labels, label_selector, object_meta }
}

/// Makes the metadata for the objects made for a resource.
pub trait MakeMetadata: KubeResource {
    /// The metadata for the objects made for this resource, named
    /// `<kind>-<describer>-<name>` (without a describer `<kind>-<name>`),
    /// the kind in lower case.
    fn make_metadata(&self, describer: Option<String>) -> (m: Metadata)
        ensures
            is_metadata_for(
                m,
                lower_kind(Self::spec_kind()),
                Self::spec_kind(),
                Self::spec_api_version(),
                self.spec_metadata(),
                opt_view(describer),
            ),
    {
        metadata_for(Self::kind(), Self::api_version(), self.metadata(), describer)
    }
}

} // verus!
