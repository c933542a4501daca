//! An index from configuration objects (config maps and secrets, by kind,
//! namespace and name) to the resources that use them, so that a change of
//! such an object can be answered with the resources to reconcile.
//!
//! The index is a `dashmap::DashMap` from object keys to the references of
//! the resources that use the object; each list holds a reference at most
//! once.

use crate::index::ObjectKey;
use crate::k8s::opt_view;
use dashmap::DashMap;
use std::collections::hash_map::RandomState;
use vstd::prelude::*;

verus! {

/// The view of an object key: kind, namespace and name.
pub type KeyView = (Seq<char>, Seq<char>, Seq<char>);

/// The view of a resource reference: name and namespace.
pub type RefView = (Seq<char>, Option<Seq<char>>);

/// A reference to a namespaced resource, compared by name and namespace
/// (as a `kube` object reference is).
#[derive(Clone, Debug, Hash, PartialEq, Eq)]
pub struct ResourceRef {
    pub name: String,
    pub namespace: Option<String>,
}

impl View for ResourceRef {
    type V = RefView;

    open spec fn view(&self) -> RefView {
        (self.name@, opt_view(self.namespace))
    }
}

impl ResourceRef {
    /// A copy of the reference.
    pub fn duplicate(&self) -> (r: ResourceRef)
        ensures
            r@ == self@,
    {
        ResourceRef { name: self.name.clone(), namespace: crate::k8s::clone_opt(&self.namespace) }
    }

    /// Whether two references name the same resource.
    pub fn same_as(&self, other: &ResourceRef) -> (b: bool)
        ensures
            b == (self@ == other@),
    {
        if !(self.name == other.name) {
            return false;
        }
        match (&self.namespace, &other.namespace) {
            (Some(a), Some(b)) => *a == *b,
            (None, None) => true,
            _ => false,
        }
    }
}

#[verifier::external_type_specification]
#[verifier::external_body]
#[verifier::reject_recursive_types(K)]
#[verifier::reject_recursive_types(V)]
#[verifier::reject_recursive_types(S)]
pub struct ExDashMap<K, V, S>(DashMap<K, V, S>);

/// The map behind the index.
pub type DependentsMap = DashMap<ObjectKey, Vec<ResourceRef>, RandomState>;

/// What an index map holds: for each object key, the references stored
/// under it, in order.
pub uninterp spec fn dependents_of(m: DependentsMap) -> Map<KeyView, Seq<RefView>>;

/// The views of a list of references.
pub open spec fn ref_views(v: Seq<ResourceRef>) -> Seq<RefView> {
    v.map_values(|r: ResourceRef| r@)
}

/// The map that files nothing.
pub open spec fn no_dependents() -> Map<KeyView, Seq<RefView>> {
    Map::empty()
}

/// Calls `DashMap::new`. Claims that the new map is empty.
#[verifier::external_body]
fn map_new() -> (m: DependentsMap)
    ensures
        dependents_of(m) == no_dependents(),
{
    DashMap::new()
}

/// Calls `DashMap::get` and copies the list it finds. Claims that a list is
/// found exactly when the key is present, and that it is the list stored
/// under the key. This rests on `ObjectKey` comparing and hashing by its
/// three strings and on `ResourceRef` copying its strings, as their derived
/// impls do.
#[verifier::external_body]
fn map_get(m: &DependentsMap, key: &ObjectKey) -> (r: Option<Vec<ResourceRef>>)
    ensures
        r is Some <==> dependents_of(*m).contains_key(key@),
        r is Some ==> ref_views(r->0@) == dependents_of(*m)[key@],
{
    match m.get(key) {
        Some(entry) => Some(entry.value().clone()),
        None => None,
    }
}

/// Calls `DashMap::insert`. Claims that afterwards the key holds the given
/// list and every other key what it held before (`DashMap::insert` takes a
/// shared reference; the wrapper takes a unique one so that the change is
/// seen). Rests on the derived impls of `ObjectKey` as `map_get` does.
#[verifier::external_body]
fn map_insert(m: &mut DependentsMap, key: ObjectKey, v: Vec<ResourceRef>)
    ensures
        dependents_of(*final(m)) == dependents_of(*old(m)).insert(key@, ref_views(v@)),
{
    m.insert(key, v);
}

/// Walks the map with `DashMap::iter` and copies each key. Claims that the
/// keys returned are those of the map, each once; their order depends on
/// the hasher and is left open.
#[verifier::external_body]
fn map_keys(m: &DependentsMap) -> (ks: Vec<ObjectKey>)
    ensures
        forall|k: KeyView| #[trigger]
            dependents_of(*m).contains_key(k) <==> exists|i: int| 0 <= i < ks@.len() && ks@[i]@ == k,
        forall|i: int, j: int| 0 <= i < j < ks@.len() ==> ks@[i]@ != ks@[j]@,
{
    m.iter().map(|entry| entry.key().clone()).collect()
}

/// The references under `k` in `m`, or none.
pub open spec fn refs_at(m: Map<KeyView, Set<RefView>>, k: KeyView) -> Set<RefView> {
    if m.contains_key(k) {
        m[k]
    } else {
        Set::empty()
    }
}

/// `m` with the reference `r` taken out everywhere.
pub open spec fn without_ref(m: Map<KeyView, Set<RefView>>, r: RefView) -> Map<KeyView, Set<RefView>> {
    m.map_values(|s: Set<RefView>| s.remove(r))
}

/// `m` with the reference `r` filed under exactly the keys `keys`.
pub open spec fn with_ref_at(m: Map<KeyView, Set<RefView>>, keys: Set<KeyView>, r: RefView) -> Map<
    KeyView,
    Set<RefView>,
> {
    Map::new(
        |k: KeyView| m.contains_key(k) || keys.contains(k),
        |k: KeyView|
            if keys.contains(k) {
                refs_at(m, k).insert(r)
            } else {
                m[k].remove(r)
            },
    )
}

/// The index map together with the invariant that no list repeats a reference.
pub struct RefIndex {
    map: DependentsMap,
}

impl View for RefIndex {
    type V = Map<KeyView, Set<RefView>>;

    closed spec fn view(&self) -> Map<KeyView, Set<RefView>> {
        dependents_of(self.map).map_values(|s: Seq<RefView>| s.to_set())
    }
}

proof fn lemma_push_contains<A>(a: Seq<A>, e: A, x: A)
    ensures
        a.push(e).contains(x) <==> (a.contains(x) || x == e),
{
    let t = a.push(e);
    if t.contains(x) && x != e {
        let i = choose|i: int| 0 <= i < t.len() && t[i] == x;
        assert(a[i] == x);
    }
    if a.contains(x) {
        let i = choose|i: int| 0 <= i < a.len() && a[i] == x;
        assert(t[i] == x);
    }
    if x == e {
        assert(t[a.len() as int] == x);
    }
}

proof fn lemma_unique_push(s: Seq<RefView>, r: RefView)
    requires
        s.no_duplicates(),
        !s.contains(r),
    ensures
        s.push(r).no_duplicates(),
        s.push(r).to_set() == s.to_set().insert(r),
{
    let t = s.push(r);
    assert forall|i: int, j: int| 0 <= i < t.len() && 0 <= j < t.len() && i != j implies t[i]
        != t[j] by {
        if i == s.len() {
            assert(s.contains(t[j]));
        } else if j == s.len() {
            assert(s.contains(t[i]));
        }
    }
    assert forall|x: RefView| t.to_set().contains(x) <==> s.to_set().insert(r).contains(x) by {
        lemma_push_contains(s, r, x);
    }
    assert(t.to_set() =~= s.to_set().insert(r));
}

impl RefIndex {
    /// No list repeats a reference.
    pub closed spec fn well_formed(&self) -> bool {
        forall|k: KeyView| #[trigger]
            dependents_of(self.map).contains_key(k) ==> dependents_of(self.map)[k].no_duplicates()
    }

    /// The empty index.
    pub fn new() -> (ix: RefIndex)
        ensures
            ix.well_formed(),
            ix@ == Map::<KeyView, Set<RefView>>::empty(),
    {
        let ix = RefIndex { map: map_new() };
        assert(ix@ =~= Map::<KeyView, Set<RefView>>::empty());
        ix
    }

    /// The references filed under `key`, each once.
    pub fn refs(&self, key: &ObjectKey) -> (v: Vec<ResourceRef>)
        requires
            self.well_formed(),
        ensures
            ref_views(v@).no_duplicates(),
            ref_views(v@).to_set() == refs_at(self@, key@),
    {
        match map_get(&self.map, key) {
            Some(v) => v,
            None => {
                let v: Vec<ResourceRef> = Vec::new();
                assert(ref_views(v@).to_set() =~= Set::<RefView>::empty());
                v
            },
        }
    }

    /// Files `r` under `key`.
    pub fn add(&mut self, key: ObjectKey, r: ResourceRef)
        requires
            old(self).well_formed(),
        ensures
            final(self).well_formed(),
            final(self)@ == old(self)@.insert(key@, refs_at(old(self)@, key@).insert(r@)),
    {
        let mut v = self.refs(&key);
        let mut i: usize = 0;
        let mut found = false;
        while i < v.len()
            invariant
                0 <= i <= v.len(),
                found ==> ref_views(v@).contains(r@),
                !found ==> forall|j: int| 0 <= j < i ==> v@[j]@ != r@,
            decreases v.len() - i,
        {
            if v[i].same_as(&r) {
                found = true;
                assert(ref_views(v@)[i as int] == r@);
            }
            i = i + 1;
        }
        let ghost before = ref_views(v@);
        if found {
            assert(before.to_set().insert(r@) =~= before.to_set());
        } else {
            proof {
                assert(!before.contains(r@));
                lemma_unique_push(before, r@);
            }
            v.push(r);
            assert(ref_views(v@) =~= before.push(r@));
        }
        let ghost old_map = dependents_of(self.map);
        let ghost k = key@;
        map_insert(&mut self.map, key, v);
        assert(self@ =~= old(self)@.insert(k, refs_at(old(self)@, k).insert(r@)));
    }

    /// Takes `r` out of the list under `key`, keeping the rest.
    fn remove_at(&mut self, key: &ObjectKey, r: &ResourceRef)
        requires
            old(self).well_formed(),
            old(self)@.contains_key(key@),
        ensures
            final(self).well_formed(),
            final(self)@ == old(self)@.insert(key@, old(self)@[key@].remove(r@)),
    {
        let v = self.refs(key);
        let ghost s = ref_views(v@);
        let mut kept: Vec<ResourceRef> = Vec::new();
        let mut i: usize = 0;
        while i < v.len()
            invariant
                0 <= i <= v.len(),
                s == ref_views(v@),
                s.no_duplicates(),
                ref_views(kept@).no_duplicates(),
                forall|x: RefView| ref_views(kept@).contains(x) <==> (s.take(i as int).contains(x) && x != r@),
            decreases v.len() - i,
        {
            let ghost prev = ref_views(kept@);
            if !v[i].same_as(r) {
                proof {
                    if prev.contains(s[i as int]) {
                        let t = s.take(i as int);
                        let j = choose|j: int| 0 <= j < t.len() && #[trigger] t[j] == s[i as int];
                        assert(s[j] == s[i as int]);
                    }
                    lemma_unique_push(prev, s[i as int]);
                }
                kept.push(v[i].duplicate());
                assert(ref_views(kept@) =~= prev.push(s[i as int]));
            }
            assert forall|x: RefView| ref_views(kept@).contains(x) <==> (s.take(i + 1).contains(x) && x != r@) by {
                assert(s.take(i + 1) =~= s.take(i as int).push(s[i as int]));
                lemma_push_contains(s.take(i as int), s[i as int], x);
                lemma_push_contains(prev, s[i as int], x);
            }
            i = i + 1;
        }
        assert(s.take(s.len() as int) =~= s);
        assert(ref_views(kept@).to_set() =~= s.to_set().remove(r@));
        let ghost k = key@;
        map_insert(&mut self.map, key.duplicate(), kept);
        assert(self@ =~= old(self)@.insert(k, old(self)@[k].remove(r@)));
    }

    /// Takes `r` out of every list.
    pub fn remove_everywhere(&mut self, r: &ResourceRef)
        requires
            old(self).well_formed(),
        ensures
            final(self).well_formed(),
            final(self)@ == without_ref(old(self)@, r@),
    {
        let keys = map_keys(&self.map);
        let ghost m0 = self@;
        let mut i: usize = 0;
        while i < keys.len()
            invariant
                self.well_formed(),
                0 <= i <= keys.len(),
                forall|k: KeyView| #[trigger]
                    m0.contains_key(k) <==> exists|j: int| 0 <= j < keys@.len() && keys@[j]@ == k,
                forall|a: int, b: int| 0 <= a < b < keys@.len() ==> keys@[a]@ != keys@[b]@,
                self@.dom() == m0.dom(),
                forall|j: int| 0 <= j < i ==> #[trigger] self@[keys@[j]@] == m0[keys@[j]@].remove(r@),
                forall|j: int| i <= j < keys@.len() ==> #[trigger] self@[keys@[j]@] == m0[keys@[j]@],
            decreases keys.len() - i,
        {
            let ghost before = self@;
            assert(m0.contains_key(keys@[i as int]@));
            self.remove_at(&keys[i], r);
            assert(self@.dom() =~= before.dom());
            assert forall|j: int| 0 <= j < i + 1 implies #[trigger] self@[keys@[j]@] == m0[keys@[j]@].remove(r@) by {
                if j != i {
                    assert(keys@[j]@ != keys@[i as int]@);
                }
            }
            assert forall|j: int| i + 1 <= j < keys@.len() implies #[trigger] self@[keys@[j]@] == m0[keys@[j]@] by {
                assert(keys@[j]@ != keys@[i as int]@);
            }
            i = i + 1;
        }
        assert forall|k: KeyView| #[trigger] self@.contains_key(k) implies self@[k] == m0[k].remove(r@) by {
            let j = choose|j: int| 0 <= j < keys@.len() && keys@[j]@ == k;
        }
        assert(self@ =~= without_ref(m0, r@));
    }

    /// Files `r` under exactly the keys `keys`: takes it out everywhere, then
    /// adds it under each key.
    pub fn update(&mut self, keys: &Vec<ObjectKey>, r: &ResourceRef)
        requires
            old(self).well_formed(),
        ensures
            final(self).well_formed(),
            final(self)@ == with_ref_at(
                old(self)@,
                keys@.map_values(|k: ObjectKey| k@).to_set(),
                r@,
            ),
    {
        let ghost m0 = self@;
        self.remove_everywhere(r);
        let ghost kv = keys@.map_values(|k: ObjectKey| k@);
        let mut i: usize = 0;
        while i < keys.len()
            invariant
                self.well_formed(),
                0 <= i <= keys.len(),
                kv == keys@.map_values(|k: ObjectKey| k@),
                self@ == with_ref_at(m0, kv.take(i as int).to_set(), r@),
            decreases keys.len() - i,
        {
            let ghost before = self@;
            let ghost k = keys@[i as int]@;
            self.add(keys[i].clone_key(), r.duplicate());
            proof {
                let a = kv.take(i as int);
                let b = kv.take(i + 1);
                assert(b =~= a.push(k));
                assert forall|x: KeyView| b.to_set().contains(x) <==> a.to_set().insert(k).contains(x) by {
                    if b.contains(x) && x != k {
                        let j = choose|j: int| 0 <= j < b.len() && #[trigger] b[j] == x;
                        assert(a[j] == x);
                    }
                    if a.contains(x) {
                        let j = choose|j: int| 0 <= j < a.len() && #[trigger] a[j] == x;
                        assert(b[j] == x);
                    }
                    if x == k {
                        assert(b[i as int] == x);
                    }
                }
                assert(b.to_set() =~= a.to_set().insert(k));
            }
            assert(self@ =~= with_ref_at(m0, kv.take(i + 1).to_set(), r@)) by {
                let ks = kv.take(i + 1).to_set();
                assert forall|x: KeyView| #[trigger] self@.contains_key(x) implies self@[x] == with_ref_at(m0, ks, r@)[x] by {
                    if x == k {
                        if kv.take(i as int).to_set().contains(k) {
                            assert(refs_at(m0, k).insert(r@).insert(r@) =~= refs_at(m0, k).insert(r@));
                        } else if m0.contains_key(k) {
                            assert(m0[k].remove(r@).insert(r@) =~= m0[k].insert(r@));
                        } else {
                            assert(Set::<RefView>::empty().insert(r@) =~= refs_at(m0, k).insert(r@));
                        }
                    }
                }
            }
            i = i + 1;
        }
        assert(kv.take(keys@.len() as int) =~= kv);
    }
}

/// After a resource has been filed under a set of keys, a lookup of any key
/// finds it exactly when the key is in that set.
pub proof fn law_update_files_exactly(
    m: Map<KeyView, Set<RefView>>,
    keys: Set<KeyView>,
    r: RefView,
    k: KeyView,
)
    ensures
        refs_at(with_ref_at(m, keys, r), k).contains(r) <==> keys.contains(k),
{
}

/// Filing one resource leaves where every other resource is found unchanged.
pub proof fn law_update_keeps_others(
    m: Map<KeyView, Set<RefView>>,
    keys: Set<KeyView>,
    r: RefView,
    other: RefView,
    k: KeyView,
)
    requires
        other != r,
    ensures
        refs_at(with_ref_at(m, keys, r), k).contains(other) <==> refs_at(m, k).contains(other),
{
}

/// After a resource has been removed no lookup finds it, and every other
/// resource is found where it was.
pub proof fn law_remove_forgets(m: Map<KeyView, Set<RefView>>, r: RefView, other: RefView, k: KeyView)
    requires
        other != r,
    ensures
        !refs_at(without_ref(m, r), k).contains(r),
        refs_at(without_ref(m, r), k).contains(other) <==> refs_at(m, k).contains(other),
{
}

/// Filing a resource again under the same keys changes nothing.
pub proof fn law_update_idempotent(m: Map<KeyView, Set<RefView>>, keys: Set<KeyView>, r: RefView)
    ensures
        with_ref_at(with_ref_at(m, keys, r), keys, r) == with_ref_at(m, keys, r),
{
    let once = with_ref_at(m, keys, r);
    let twice = with_ref_at(once, keys, r);
    assert forall|k: KeyView| #[trigger] twice.contains_key(k) implies twice[k] == once[k] by {
        if keys.contains(k) {
            assert(refs_at(once, k).insert(r) =~= once[k]);
        } else {
            assert(once[k].remove(r) =~= once[k]);
        }
    }
    assert(twice =~= once);
}

/// Removing a resource after filing it gives the lookups that removing it
/// in the first place would have given.
pub proof fn law_remove_undoes_update(
    m: Map<KeyView, Set<RefView>>,
    keys: Set<KeyView>,
    r: RefView,
    k: KeyView,
)
    ensures
        refs_at(without_ref(with_ref_at(m, keys, r), r), k) == refs_at(without_ref(m, r), k),
{
    let a = refs_at(without_ref(with_ref_at(m, keys, r), r), k);
    let b = refs_at(without_ref(m, r), k);
    if keys.contains(k) {
        assert(refs_at(m, k).insert(r).remove(r) =~= refs_at(m, k).remove(r));
        if !m.contains_key(k) {
            assert(Set::<RefView>::empty().remove(r) =~= Set::<RefView>::empty());
        }
        assert(a =~= b);
    } else if m.contains_key(k) {
        assert(m[k].remove(r).remove(r) =~= m[k].remove(r));
    }
}

/// One change of an index: filing a resource under exactly a set of keys,
/// or removing it everywhere.
pub enum IndexChange {
    Update(Set<KeyView>, RefView),
    Remove(RefView),
}

/// The index after the changes `changes`, made in order, starting from `m`.
pub open spec fn replay(m: Map<KeyView, Set<RefView>>, changes: Seq<IndexChange>) -> Map<KeyView, Set<RefView>>
    decreases changes.len(),
{
    if changes.len() == 0 {
        m
    } else {
        let before = replay(m, changes.drop_last());
        match changes.last() {
            IndexChange::Update(keys, r) => with_ref_at(before, keys, r),
            IndexChange::Remove(r) => without_ref(before, r),
        }
    }
}

/// Whether, after `changes`, the resource `r` is filed under `k`: the latest
/// change that concerns `r` is an update whose keys hold `k` (never, if no
/// change concerns `r`).
pub open spec fn filed_under(changes: Seq<IndexChange>, r: RefView, k: KeyView) -> bool
    decreases changes.len(),
{
    if changes.len() == 0 {
        false
    } else {
        match changes.last() {
            IndexChange::Update(keys, x) => if x == r {
                keys.contains(k)
            } else {
                filed_under(changes.drop_last(), r, k)
            },
            IndexChange::Remove(x) => if x == r {
                false
            } else {
                filed_under(changes.drop_last(), r, k)
            },
        }
    }
}

/// Over any history of updates and removes from an empty index, a lookup of
/// a key finds a resource exactly when the latest update of that resource,
/// not followed by a remove of it, filed it under that key. (`update` and
/// `remove` of `RefIndex` and of `ConfigIndex` make exactly the changes
/// `IndexChange::Update` and `IndexChange::Remove`.)
pub proof fn law_lookup_follows_latest_change(changes: Seq<IndexChange>, r: RefView, k: KeyView)
    ensures
        refs_at(replay(Map::empty(), changes), k).contains(r) <==> filed_under(changes, r, k),
    decreases changes.len(),
{
    if changes.len() > 0 {
        let before = changes.drop_last();
        law_lookup_follows_latest_change(before, r, k);
        let m = replay(Map::empty(), before);
        match changes.last() {
            IndexChange::Update(keys, x) => {
                if x == r {
                    law_update_files_exactly(m, keys, r, k);
                } else {
                    law_update_keeps_others(m, keys, x, r, k);
                }
            },
            IndexChange::Remove(x) => {
                if x == r {
                    assert(!refs_at(without_ref(m, r), k).contains(r));
                } else {
                    law_remove_forgets(m, x, r, k);
                }
            },
        }
    }
}

} // verus!
