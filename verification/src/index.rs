//! Keys of configuration objects.

use vstd::prelude::*;

verus! {

/// A configuration object, by kind, namespace and name.
#[derive(Clone, Debug, Hash, PartialEq, Eq)]
pub struct ObjectKey {
    pub kind: String,
    pub namespace: String,
    pub name: String,
}

impl View for ObjectKey {
    type V = (Seq<char>, Seq<char>, Seq<char>);

    open spec fn view(&self) -> (Seq<char>, Seq<char>, Seq<char>) {
        (self.kind@, self.namespace@, self.name@)
    }
}

impl ObjectKey {
    /// A copy of the key.
    pub fn clone_key(&self) -> (k: ObjectKey)
        ensures
            k@ == self@,
    {
        ObjectKey { kind: self.kind.clone(), namespace: self.namespace.clone(), name: self.name.clone() }
    }

    /// A copy of the key.
    pub fn duplicate(&self) -> (k: ObjectKey)
        ensures
            k@ == self@,
    {
        self.clone_key()
    }
}

} // verus!
