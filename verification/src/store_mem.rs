//! An in-memory store: a log of write entries, read back last-writer-wins.
//! Its contents are the map that folds the log left to right, so a write is
//! a single append and a read scans from the newest entry.

use vstd::prelude::*;
use vstd::string::*;
use crate::errs::IoError;
use crate::store::{Key, KvStore, Namespace, Value};

verus! {

/// One recorded write.
#[derive(Clone, Debug)]
pub struct StoreEntry {
    pub ns: String,
    pub key: String,
    pub value: String,
}

/// The (namespace, key) pair an entry is stored under.
pub open spec fn entry_pair(e: StoreEntry) -> (Seq<char>, Seq<char>) {
    (e.ns@, e.key@)
}

/// The map a write log denotes: later entries win over earlier ones.
pub open spec fn log_contents(s: Seq<StoreEntry>) -> Map<(Seq<char>, Seq<char>), Seq<char>>
    decreases s.len(),
{
    if s.len() == 0 {
        Map::empty()
    } else {
        log_contents(s.drop_last()).insert(entry_pair(s.last()), s.last().value@)
    }
}

/// If entry `i` is the newest entry under its pair, the log's contents hold
/// its value under that pair.
proof fn lemma_log_contents_hit(s: Seq<StoreEntry>, i: int)
    requires
        0 <= i < s.len(),
        forall|j: int| i < j < s.len() ==> entry_pair(s[j]) != entry_pair(s[i]),
    ensures
        log_contents(s).contains_key(entry_pair(s[i])),
        log_contents(s)[entry_pair(s[i])] == s[i].value@,
    decreases s.len(),
{
    if i == s.len() - 1 {
    } else {
        assert(forall|j: int|
            i < j < s.drop_last().len() ==> entry_pair(s.drop_last()[j]) != entry_pair(
                s.drop_last()[i],
            ));
        lemma_log_contents_hit(s.drop_last(), i);
    }
}

/// A pair no entry is stored under is absent from the log's contents.
proof fn lemma_log_contents_miss(s: Seq<StoreEntry>, pair: (Seq<char>, Seq<char>))
    requires
        forall|j: int| 0 <= j < s.len() ==> entry_pair(s[j]) != pair,
    ensures
        !log_contents(s).contains_key(pair),
    decreases s.len(),
{
    if s.len() > 0 {
        lemma_log_contents_miss(s.drop_last(), pair);
    }
}

/// The in-memory store.
#[derive(Clone, Debug)]
pub struct MemKvStore {
    entries: Vec<StoreEntry>,
}

impl MemKvStore {
    /// An empty store.
    pub fn new() -> (r: MemKvStore)
        ensures
            r.contents() == Map::<(Seq<char>, Seq<char>), Seq<char>>::empty(),
    {
        MemKvStore { entries: Vec::new() }
    }

    /// Record a write; the pair now holds exactly this value.
    pub fn set_entry(&mut self, ns: &Namespace, key: &Key, value: &Value)
        ensures
            final(self).contents() == old(self).contents().insert(
                (ns.0@, key.0@),
                value.0@,
            ),
    {
        let e = StoreEntry {
            ns: String::from_str(ns.0.as_str()),
            key: String::from_str(key.0.as_str()),
            value: String::from_str(value.0.as_str()),
        };
        self.entries.push(e);
        proof {
            assert(self.entries@.drop_last() =~= old(self).entries@);
        }
    }

    /// Read the value last written under the pair, or none.
    pub fn get_entry(&self, ns: &Namespace, key: &Key) -> (r: Option<Value>)
        ensures
            match r {
                Some(v) => self.contents().contains_key((ns.0@, key.0@)) && v.0@
                    == self.contents()[(ns.0@, key.0@)],
                None => !self.contents().contains_key((ns.0@, key.0@)),
            },
    {
        let mut i: usize = self.entries.len();
        while i > 0
            invariant
                i <= self.entries.len(),
                forall|j: int|
                    i <= j < self.entries@.len() ==> entry_pair(self.entries@[j]) != (
                        ns.0@,
                        key.0@,
                    ),
            decreases i,
        {
            i = i - 1;
            let e = &self.entries[i];
            if e.ns == ns.0 && e.key == key.0 {
                proof {
                    lemma_log_contents_hit(self.entries@, i as int);
                }
                return Some(Value(String::from_str(e.value.as_str())));
            }
        }
        proof {
            lemma_log_contents_miss(self.entries@, (ns.0@, key.0@));
        }
        None
    }
}

impl KvStore for MemKvStore {
    closed spec fn contents(&self) -> Map<(Seq<char>, Seq<char>), Seq<char>> {
        log_contents(self.entries@)
    }

    /// In-memory writes cannot fail: there is no underlying I/O fault to
    /// surface.
    fn set(&mut self, ns: &Namespace, key: &Key, value: &Value) -> (r: Result<(), IoError>)
        ensures
            r is Ok,
    {
        self.set_entry(ns, key, value);
        Ok(())
    }

    /// In-memory reads cannot fail: a missing key reads as `Ok(None)`,
    /// never as an error.
    fn get(&self, ns: &Namespace, key: &Key) -> (r: Result<Option<Value>, IoError>)
        ensures
            r is Ok,
    {
        Ok(self.get_entry(ns, key))
    }
}

impl Default for MemKvStore {
    /// Same as `new`: an empty store.
    fn default() -> (r: MemKvStore)
        ensures
            r.contents() == Map::<(Seq<char>, Seq<char>), Seq<char>>::empty(),
    {
        MemKvStore::new()
    }
}

} // verus!
