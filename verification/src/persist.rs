//! Model of the host's persistent key/value store and its check-then-read
//! discipline.
//!
//! The host keeps three independently typed namespaces (32-bit integers,
//! 32-bit floats, strings), each keyed by string, and signals no "key not
//! found" error: a caller must check existence first, and a raw read of an
//! absent key is host-defined misbehaviour. This module captures that
//! discipline over a local store: `access_*` carries the existence check as a
//! precondition, so a read without a preceding successful `contains_*` cannot
//! be verified, and `get_persistent_*` packages the checked sequence, turning
//! absence into `None`. Float values are carried as their bit patterns; the
//! boundary layer converts at the edge.

use vstd::hash_map::StringHashMap;
use vstd::prelude::*;

verus! {

/// Spec-level state of the store: one map per typed namespace.
pub struct StoreView {
    pub ints: Map<Seq<char>, i32>,
    pub floats: Map<Seq<char>, u32>,
    pub texts: Map<Seq<char>, Seq<char>>,
}

/// A local persistent store holding the three typed namespaces.
pub struct PersistentStore {
    ints: StringHashMap<i32>,
    floats: StringHashMap<u32>,
    texts: StringHashMap<String>,
}

impl View for PersistentStore {
    type V = StoreView;

    closed spec fn view(&self) -> StoreView {
        StoreView {
            ints: self.ints@,
            floats: self.floats@,
            texts: self.texts@.map_values(|s: String| s@),
        }
    }
}

impl PersistentStore {
    /// A store with every namespace empty.
    pub fn new() -> (s: PersistentStore)
        ensures
            s@.ints == Map::<Seq<char>, i32>::empty(),
            s@.floats == Map::<Seq<char>, u32>::empty(),
            s@.texts == Map::<Seq<char>, Seq<char>>::empty(),
    {
        let s = PersistentStore {
            ints: StringHashMap::new(),
            floats: StringHashMap::new(),
            texts: StringHashMap::new(),
        };
        proof {
            assert(s@.texts =~= Map::<Seq<char>, Seq<char>>::empty());
        }
        s
    }

    /// Whether an integer value is stored under `key`.
    pub fn contains_i32(&self, key: &str) -> (r: bool)
        ensures
            r == self@.ints.contains_key(key@),
    {
        self.ints.contains_key(key)
    }

    /// Reads the integer under `key`. The key must be known present: this is
    /// the read half of the check-then-read sequence and may only follow a
    /// successful `contains_i32`.
    pub fn access_i32(&self, key: &str) -> (r: i32)
        requires
            self@.ints.contains_key(key@),
        ensures
            r == self@.ints[key@],
    {
        match self.ints.get(key) {
            Some(v) => *v,
            None => vstd::pervasive::unreached(),
        }
    }

    /// Stores `v` under `key` in the integer namespace; the other namespaces
    /// are untouched.
    pub fn store_i32(&mut self, key: &str, v: i32)
        ensures
            final(self)@.ints == old(self)@.ints.insert(key@, v),
            final(self)@.floats == old(self)@.floats,
            final(self)@.texts == old(self)@.texts,
    {
        let owned: String = key.to_owned();
        self.ints.insert(owned, v);
    }

    /// Drops the integer under `key`, if any; the other namespaces are
    /// untouched.
    pub fn remove_i32(&mut self, key: &str)
        ensures
            final(self)@.ints == old(self)@.ints.remove(key@),
            final(self)@.floats == old(self)@.floats,
            final(self)@.texts == old(self)@.texts,
    {
        self.ints.remove(key);
    }

    /// The checked read: yields the integer under `key` when one is stored,
    /// and nothing when the key is absent.
    pub fn get_persistent_i32(&self, key: &str) -> (r: Option<i32>)
        ensures
            r == (if self@.ints.contains_key(key@) {
                Some(self@.ints[key@])
            } else {
                None::<i32>
            }),
    {
        if self.contains_i32(key) {
            Some(self.access_i32(key))
        } else {
            None
        }
    }

    /// Whether a float value is stored under `key`.
    pub fn contains_f32(&self, key: &str) -> (r: bool)
        ensures
            r == self@.floats.contains_key(key@),
    {
        self.floats.contains_key(key)
    }

    /// Reads the float bits under `key`. The key must be known present: this
    /// may only follow a successful `contains_f32`.
    pub fn access_f32_bits(&self, key: &str) -> (r: u32)
        requires
            self@.floats.contains_key(key@),
        ensures
            r == self@.floats[key@],
    {
        match self.floats.get(key) {
            Some(v) => *v,
            None => vstd::pervasive::unreached(),
        }
    }

    /// Stores float bits `v` under `key`; the other namespaces are untouched.
    pub fn store_f32_bits(&mut self, key: &str, v: u32)
        ensures
            final(self)@.floats == old(self)@.floats.insert(key@, v),
            final(self)@.ints == old(self)@.ints,
            final(self)@.texts == old(self)@.texts,
    {
        let owned: String = key.to_owned();
        self.floats.insert(owned, v);
    }

    /// Drops the float under `key`, if any; the other namespaces are
    /// untouched.
    pub fn remove_f32(&mut self, key: &str)
        ensures
            final(self)@.floats == old(self)@.floats.remove(key@),
            final(self)@.ints == old(self)@.ints,
            final(self)@.texts == old(self)@.texts,
    {
        self.floats.remove(key);
    }

    /// The checked read for the float namespace, over bit patterns.
    pub fn get_persistent_f32_bits(&self, key: &str) -> (r: Option<u32>)
        ensures
            r == (if self@.floats.contains_key(key@) {
                Some(self@.floats[key@])
            } else {
                None::<u32>
            }),
    {
        if self.contains_f32(key) {
            Some(self.access_f32_bits(key))
        } else {
            None
        }
    }

    /// Whether a string value is stored under `key`.
    pub fn contains_str(&self, key: &str) -> (r: bool)
        ensures
            r == self@.texts.contains_key(key@),
    {
        self.texts.contains_key(key)
    }

    /// Reads the string under `key` as an owned value. The key must be known
    /// present: this may only follow a successful `contains_str`.
    pub fn access_str(&self, key: &str) -> (r: String)
        requires
            self@.texts.contains_key(key@),
        ensures
            r@ == self@.texts[key@],
    {
        match self.texts.get(key) {
            Some(v) => v.clone(),
            None => vstd::pervasive::unreached(),
        }
    }

    /// Stores `v` under `key` in the string namespace; the other namespaces
    /// are untouched.
    pub fn store_str(&mut self, key: &str, v: String)
        ensures
            final(self)@.texts == old(self)@.texts.insert(key@, v@),
            final(self)@.ints == old(self)@.ints,
            final(self)@.floats == old(self)@.floats,
    {
        let ghost vv = v@;
        let owned: String = key.to_owned();
        self.texts.insert(owned, v);
        proof {
            assert(self@.texts =~= old(self)@.texts.insert(key@, vv));
        }
    }

    /// Drops the string under `key`, if any; the other namespaces are
    /// untouched.
    pub fn remove_str(&mut self, key: &str)
        ensures
            final(self)@.texts == old(self)@.texts.remove(key@),
            final(self)@.ints == old(self)@.ints,
            final(self)@.floats == old(self)@.floats,
    {
        self.texts.remove(key);
        proof {
            assert(self@.texts =~= old(self)@.texts.remove(key@));
        }
    }

    /// The checked read: yields an owned copy of the string under `key` when
    /// one is stored, and nothing when the key is absent.
    pub fn get_persistent_str(&self, key: &str) -> (r: Option<String>)
        ensures
            match r {
                Some(s) => self@.texts.contains_key(key@) && s@ == self@.texts[key@],
                None => !self@.texts.contains_key(key@),
            },
    {
        if self.contains_str(key) {
            Some(self.access_str(key))
        } else {
            None
        }
    }
}

} // verus!
