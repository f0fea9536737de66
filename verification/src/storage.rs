//! The in-memory storage of the store: a map from keys to values, and the
//! sequence number of the last logged operation applied to it.

use vstd::prelude::*;
use vstd::hash_map::StringHashMap;

verus! {

/// A key-value pair that an operation produced.
#[derive(Clone, Debug, PartialEq, Eq)]
pub struct KvOutput {
    pub key: String,
    pub value: String,
}

impl View for KvOutput {
    type V = (Seq<char>, Seq<char>);

    open spec fn view(&self) -> (Seq<char>, Seq<char>) {
        (self.key@, self.value@)
    }
}

/// The abstract state of a `MemStorage`.
pub struct MemStorageView {
    pub sq_no: u64,
    pub contents: Map<Seq<char>, Seq<char>>,
}

/// What a read of `key` returns from `contents`.
pub open spec fn read_result(contents: Map<Seq<char>, Seq<char>>, key: Seq<char>) -> Option<
    (Seq<char>, Seq<char>),
> {
    if contents.contains_key(key) {
        Some((key, contents[key]))
    } else {
        None
    }
}

/// In-memory key-value storage.
pub struct MemStorage {
    sq_no: u64,
    mem_storage: StringHashMap<String>,
}

impl View for MemStorage {
    type V = MemStorageView;

    closed spec fn view(&self) -> MemStorageView {
        MemStorageView {
            sq_no: self.sq_no,
            contents: self.mem_storage@.map_values(|v: String| v@),
        }
    }
}

impl MemStorage {
    /// An empty storage with sequence number 0.
    pub fn new() -> (s: Self)
        ensures
            s@.sq_no == 0,
            s@.contents == Map::<Seq<char>, Seq<char>>::empty(),
    {
        let s = MemStorage { sq_no: 0, mem_storage: StringHashMap::new() };
        assert(s@.contents =~= Map::<Seq<char>, Seq<char>>::empty());
        s
    }

    /// The pair stored under `key`, if any.
    pub fn read(&self, key: String) -> (r: Option<KvOutput>)
        ensures
            match r {
                Some(out) => read_result(self@.contents, key@) == Some(out@),
                None => read_result(self@.contents, key@) is None,
            },
    {
        match self.mem_storage.get(key.as_str()) {
            Some(value) => {
                let output = KvOutput { key: key, value: value.clone() };
                Some(output)
            },
            None => None,
        }
    }

    /// Stores `value` under `key`, records `seq_no` as the last applied
    /// sequence number, and returns the pair written.
    pub fn write(&mut self, key: String, value: String, seq_no: u64) -> (r: KvOutput)
        ensures
            final(self)@.contents == old(self)@.contents.insert(key@, value@),
            final(self)@.sq_no == seq_no,
            r@ == (key@, value@),
    {
        self.mem_storage.insert(key.clone(), value.clone());
        self.sq_no = seq_no;
        assert(self@.contents =~= old(self)@.contents.insert(key@, value@));
        KvOutput { key, value }
    }

    /// Removes the entry under `key`, records `seq_no` as the last applied
    /// sequence number, and returns the pair removed, if there was one.
    pub fn delete(&mut self, key: String, seq_no: u64) -> (r: Option<KvOutput>)
        ensures
            final(self)@.contents == old(self)@.contents.remove(key@),
            final(self)@.sq_no == seq_no,
            match r {
                Some(out) => read_result(old(self)@.contents, key@) == Some(out@),
                None => read_result(old(self)@.contents, key@) is None,
            },
    {
        self.sq_no = seq_no;
        let removed = match self.mem_storage.get(key.as_str()) {
            Some(value) => Some(value.clone()),
            None => None,
        };
        self.mem_storage.remove(key.as_str());
        assert(self@.contents =~= old(self)@.contents.remove(key@));
        match removed {
            Some(removed_value) => {
                let output = KvOutput { key: key, value: removed_value };
                Some(output)
            },
            None => None,
        }
    }
}

} // verus!
