//! The index from the config maps and secrets that resources use to those
//! resources, for any resource type that names its dependencies, and the
//! hash of those dependencies.

use crate::digest::{documents_hash, hash_documents, string_views};
use crate::index::ObjectKey;
use crate::k8s::{config_map_kind, config_map_kind_view, opt_view, secret_kind, secret_kind_view, ObjectMeta};
use crate::metadata::KubeResource;
use crate::ref_index::{refs_at, ref_views, with_ref_at, without_ref, KeyView, RefIndex, RefView, ResourceRef};
use std::marker::PhantomData;
use vstd::prelude::*;

verus! {

/// A resource type that names the config maps and secrets it uses.
pub trait Config {
    /// The names of the config maps the resource uses.
    spec fn config_map_names(&self) -> Seq<Seq<char>>;

    /// The names of the secrets the resource uses.
    spec fn secret_names(&self) -> Seq<Seq<char>>;

    /// The names of the config maps the resource uses.
    fn get_config_map_names(&self) -> (v: Vec<String>)
        ensures
            string_views(v@) == self.config_map_names(),
    ;

    /// The names of the secrets the resource uses.
    fn get_secret_names(&self) -> (v: Vec<String>)
        ensures
            string_views(v@) == self.secret_names(),
    ;
}

/// The keys of the config maps and secrets a resource in `namespace` uses:
/// config maps first, then secrets, each in the order the resource names them.
pub open spec fn dependency_keys(
    namespace: Seq<char>,
    config_maps: Seq<Seq<char>>,
    secrets: Seq<Seq<char>>,
) -> Seq<KeyView> {
    config_maps.map_values(|n: Seq<char>| (config_map_kind_view(), namespace, n)) + secrets.map_values(
        |n: Seq<char>| (secret_kind_view(), namespace, n),
    )
}

/// The keys of the dependencies of `r`.
pub open spec fn keys_of<R: Config + KubeResource>(r: R) -> Seq<KeyView> {
    dependency_keys(r.spec_metadata().namespace_or_default(), r.config_map_names(), r.secret_names())
}

/// The reference to the resource with metadata `meta`.
pub open spec fn ref_of(meta: ObjectMeta) -> RefView {
    (meta.name->0@, opt_view(meta.namespace))
}

/// The key of the object of kind `kind` with metadata `meta`.
pub open spec fn key_of(kind: Seq<char>, meta: ObjectMeta) -> KeyView {
    (kind, meta.namespace_or_default(), meta.name_any())
}

/// The keys of the dependencies: `kind` `namespace`/`name` for each name.
fn keys_for(kind: &String, namespace: &String, names: &Vec<String>, keys: &mut Vec<ObjectKey>)
    ensures
        final(keys)@.map_values(|k: ObjectKey| k@) == old(keys)@.map_values(|k: ObjectKey| k@)
            + string_views(names@).map_values(|n: Seq<char>| (kind@, namespace@, n)),
{
    let ghost start = old(keys)@.map_values(|k: ObjectKey| k@);
    let mut i: usize = 0;
    while i < names.len()
        invariant
            0 <= i <= names.len(),
            keys@.map_values(|k: ObjectKey| k@) == start + string_views(names@).take(i as int).map_values(
                |n: Seq<char>| (kind@, namespace@, n),
            ),
        decreases names.len() - i,
    {
        let ghost prev = keys@;
        let key = ObjectKey { kind: kind.clone(), namespace: namespace.clone(), name: names[i].clone() };
        assert(key@ == (kind@, namespace@, string_views(names@)[i as int]));
        keys.push(key);
        proof {
            let a = keys@.map_values(|k: ObjectKey| k@);
            let b = start + string_views(names@).take(i + 1).map_values(|n: Seq<char>| (kind@, namespace@, n));
            let c = start + string_views(names@).take(i as int).map_values(|n: Seq<char>| (kind@, namespace@, n));
            assert(prev.map_values(|k: ObjectKey| k@) == c);
            assert(string_views(names@).len() == names@.len());
            assert(string_views(names@).take(i + 1).len() == i + 1);
            assert(c.len() == start.len() + i);
            assert(a.len() == prev.len() + 1);
            assert(a.len() == b.len());
            assert forall|j: int| 0 <= j < a.len() implies a[j] == b[j] by {
                if j < a.len() - 1 {
                    assert(a[j] == prev.map_values(|k: ObjectKey| k@)[j]);
                    assert(c[j] == b[j]);
                }
            }
            assert(a =~= b);
        }
        i = i + 1;
    }
    assert(string_views(names@).take(names@.len() as int) =~= string_views(names@));
}

/// The keys of the config maps and secrets that `resource` uses.
pub fn dependency_keys_of<R: Config + KubeResource>(resource: &R) -> (keys: Vec<ObjectKey>)
    ensures
        keys@.map_values(|k: ObjectKey| k@) == keys_of(*resource),
{
    let config_map_names = resource.get_config_map_names();
    let secret_names = resource.get_secret_names();
    let namespace = resource.metadata().get_namespace_or_default();
    let mut keys: Vec<ObjectKey> = Vec::new();
    keys_for(&config_map_kind(), &namespace, &config_map_names, &mut keys);
    keys_for(&secret_kind(), &namespace, &secret_names, &mut keys);
    assert(keys@.map_values(|k: ObjectKey| k@) =~= keys_of(*resource));
    keys
}

/// The reference to the resource with metadata `meta`, which has a name.
pub fn resource_ref(meta: &ObjectMeta) -> (r: ResourceRef)
    requires
        meta.name is Some,
    ensures
        r@ == ref_of(*meta),
{
    ResourceRef {
        name: match &meta.name {
            Some(n) => n.clone(),
            None => String::new(),
        },
        namespace: crate::k8s::clone_opt(&meta.namespace),
    }
}

/// The index from config maps and secrets to the resources of type `R`
/// that use them.
pub struct ConfigIndex<R> {
    index: RefIndex,
    resource_type: PhantomData<R>,
}

impl<R: Config + KubeResource> View for ConfigIndex<R> {
    type V = Map<KeyView, Set<RefView>>;

    closed spec fn view(&self) -> Map<KeyView, Set<RefView>> {
        self.index@
    }
}

impl<R: Config + KubeResource> ConfigIndex<R> {
    /// The index is consistent.
    pub closed spec fn well_formed(&self) -> bool {
        self.index.well_formed()
    }

    /// The empty index.
    pub fn new() -> (ix: Self)
        ensures
            ix.well_formed(),
            ix@ == Map::<KeyView, Set<RefView>>::empty(),
    {
        ConfigIndex { index: RefIndex::new(), resource_type: PhantomData }
    }

    /// Files `resource` under exactly the config maps and secrets it uses now.
    pub fn update(&mut self, resource: &R)
        requires
            old(self).well_formed(),
            resource.spec_metadata().name is Some,
        ensures
            final(self).well_formed(),
            final(self)@ == with_ref_at(old(self)@, keys_of(*resource).to_set(), ref_of(resource.spec_metadata())),
    {
        let keys = dependency_keys_of(resource);
        let r = resource_ref(resource.metadata());
        self.index.update(&keys, &r);
    }

    /// Forgets `resource` everywhere.
    pub fn remove(&mut self, resource: &R)
        requires
            old(self).well_formed(),
            resource.spec_metadata().name is Some,
        ensures
            final(self).well_formed(),
            final(self)@ == without_ref(old(self)@, ref_of(resource.spec_metadata())),
    {
        let r = resource_ref(resource.metadata());
        self.index.remove_everywhere(&r);
    }

    /// The resources that use the object of kind `kind` with metadata
    /// `meta`, each once.
    pub fn get_affected(&self, kind: &String, meta: &ObjectMeta) -> (v: Vec<ResourceRef>)
        requires
            self.well_formed(),
        ensures
            ref_views(v@).no_duplicates(),
            ref_views(v@).to_set() == refs_at(self@, key_of(kind@, *meta)),
    {
        let key = ObjectKey {
            kind: kind.clone(),
            namespace: meta.get_namespace_or_default(),
            name: meta.get_name_any(),
        };
        self.index.refs(&key)
    }
}

/// The hash of the dependencies of a resource, from their serialized forms
/// `documents`: those of the config maps, then those of the secrets, in the
/// order of [`dependency_keys_of`], an empty string for one that could not
/// be read.
pub fn determine_hash(documents: &Vec<String>) -> (h: String)
    ensures
        h@ == documents_hash(string_views(documents@)),
        h@.len() == 44,
{
    hash_documents(documents)
}

/// After an update with a resource, a lookup of each config map and each
/// secret that the resource names (in its namespace, or the default one)
/// finds the resource, and a lookup of any other key does not.
pub proof fn law_update_files_every_dependency<R: Config + KubeResource>(
    m: Map<KeyView, Set<RefView>>,
    resource: R,
    k: KeyView,
)
    ensures
        forall|i: int|
            0 <= i < resource.config_map_names().len() ==> refs_at(
                with_ref_at(m, keys_of(resource).to_set(), ref_of(resource.spec_metadata())),
                (config_map_kind_view(), resource.spec_metadata().namespace_or_default(), #[trigger] resource.config_map_names()[i]),
            ).contains(ref_of(resource.spec_metadata())),
        forall|i: int|
            0 <= i < resource.secret_names().len() ==> refs_at(
                with_ref_at(m, keys_of(resource).to_set(), ref_of(resource.spec_metadata())),
                (secret_kind_view(), resource.spec_metadata().namespace_or_default(), #[trigger] resource.secret_names()[i]),
            ).contains(ref_of(resource.spec_metadata())),
        refs_at(with_ref_at(m, keys_of(resource).to_set(), ref_of(resource.spec_metadata())), k).contains(
            ref_of(resource.spec_metadata()),
        ) <==> keys_of(resource).contains(k),
{
    let ns = resource.spec_metadata().namespace_or_default();
    let cms = resource.config_map_names();
    let ss = resource.secret_names();
    let keys = keys_of(resource);
    let r = ref_of(resource.spec_metadata());
    assert forall|i: int| 0 <= i < cms.len() implies refs_at(
        with_ref_at(m, keys.to_set(), r),
        (config_map_kind_view(), ns, #[trigger] cms[i]),
    ).contains(r) by {
        assert(keys[i] == (config_map_kind_view(), ns, cms[i]));
        assert(keys.to_set().contains(keys[i]));
    }
    assert forall|i: int| 0 <= i < ss.len() implies refs_at(
        with_ref_at(m, keys.to_set(), r),
        (secret_kind_view(), ns, #[trigger] ss[i]),
    ).contains(r) by {
        assert(keys[cms.len() + i] == (secret_kind_view(), ns, ss[i]));
        assert(keys.to_set().contains(keys[cms.len() + i]));
    }
}

} // verus!
