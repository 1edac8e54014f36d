//! The key-value store contract: a namespaced, synchronous get/set
//! capability used to persist node state. Lookups are scoped by the
//! (namespace, key) pair; there is no cross-namespace visibility.

use vstd::prelude::*;
use crate::errs::IoError;

verus! {

/// A store namespace.
#[derive(Clone, Debug, PartialEq, Eq, Hash)]
pub struct Namespace(pub String);

/// A store key, meaningful within one namespace.
#[derive(Clone, Debug, PartialEq, Eq, Hash)]
pub struct Key(pub String);

/// A stored value.
#[derive(Clone, Debug, PartialEq, Eq, Hash)]
pub struct Value(pub String);

/// The store capability. A store is a finite map from (namespace, key)
/// pairs to values: `set` upserts with last-writer-wins, and `get` returns
/// none for an absent key, never an error. A failed operation leaves the
/// contents unchanged.
pub trait KvStore: Sized {
    /// The abstract contents of the store.
    spec fn contents(&self) -> Map<(Seq<char>, Seq<char>), Seq<char>>;

    fn set(&mut self, ns: &Namespace, key: &Key, value: &Value) -> (r: Result<(), IoError>)
        ensures
            r is Ok ==> final(self).contents() == old(self).contents().insert(
                (ns.0@, key.0@),
                value.0@,
            ),
            r is Err ==> final(self).contents() == old(self).contents(),
    ;

    fn get(&self, ns: &Namespace, key: &Key) -> (r: Result<Option<Value>, IoError>)
        ensures
            match r {
                Ok(Some(v)) => self.contents().contains_key((ns.0@, key.0@)) && v.0@
                    == self.contents()[(ns.0@, key.0@)],
                Ok(None) => !self.contents().contains_key((ns.0@, key.0@)),
                Err(_) => true,
            },
    ;
}

/// Round-trip law: writing a value under (namespace, key) and reading the
/// same pair back yields exactly that value, whatever the store held
/// before.
pub proof fn lemma_store_round_trip(
    m: Map<(Seq<char>, Seq<char>), Seq<char>>,
    ns: Seq<char>,
    key: Seq<char>,
    value: Seq<char>,
)
    ensures
        m.insert((ns, key), value).contains_key((ns, key)),
        m.insert((ns, key), value)[(ns, key)] == value,
{
}

/// Isolation law: a write under one namespace never changes what any other
/// namespace holds under the same key.
pub proof fn lemma_store_isolation(
    m: Map<(Seq<char>, Seq<char>), Seq<char>>,
    ns_a: Seq<char>,
    ns_b: Seq<char>,
    key: Seq<char>,
    value: Seq<char>,
)
    requires
        ns_a != ns_b,
    ensures
        m.insert((ns_a, key), value).contains_key((ns_b, key)) == m.contains_key((ns_b, key)),
        m.contains_key((ns_b, key)) ==> m.insert((ns_a, key), value)[(ns_b, key)] == m[(ns_b,
            key,
        )],
{
}

} // verus!
