//! Transient scratch storage: a typed key/value map for values that live only
//! for the current session and are never handed to the host.
//!
//! The map is an explicit context object; whoever orchestrates the plugin's
//! entry points owns one and passes it where scratch storage is needed. A read
//! names the kind it expects and yields nothing when the stored kind differs,
//! so a mistyped read is a silent absence, never a reinterpretation.

use vstd::hash_map::StringHashMap;
use vstd::prelude::*;

verus! {

/// The kind a caller requests when reading a scratch entry.
#[derive(Clone, Copy, PartialEq, Eq, Structural, Debug)]
pub enum TempKind {
    Int,
    FloatBits,
    Text,
}

/// A value stored in the scratch map: a 32-bit integer, the bit pattern of a
/// 32-bit float, or an owned string.
pub enum TempValue {
    Int(i32),
    FloatBits(u32),
    Text(String),
}

/// Spec-level image of a [`TempValue`]: the string variant is abstracted to
/// its character sequence.
pub enum TempVal {
    Int(i32),
    FloatBits(u32),
    Text(Seq<char>),
}

impl View for TempValue {
    type V = TempVal;

    open spec fn view(&self) -> TempVal {
        match self {
            TempValue::Int(i) => TempVal::Int(*i),
            TempValue::FloatBits(b) => TempVal::FloatBits(*b),
            TempValue::Text(s) => TempVal::Text(s@),
        }
    }
}

impl TempVal {
    /// The kind tag of a stored value.
    pub open spec fn kind(self) -> TempKind {
        match self {
            TempVal::Int(_) => TempKind::Int,
            TempVal::FloatBits(_) => TempKind::FloatBits,
            TempVal::Text(_) => TempKind::Text,
        }
    }
}

impl TempValue {
    /// The kind tag of this value.
    pub fn kind(&self) -> (k: TempKind)
        ensures
            k == self@.kind(),
    {
        match self {
            TempValue::Int(_) => TempKind::Int,
            TempValue::FloatBits(_) => TempKind::FloatBits,
            TempValue::Text(_) => TempKind::Text,
        }
    }

    /// An owned copy holding the same value.
    pub fn duplicate(&self) -> (r: TempValue)
        ensures
            r@ == self@,
    {
        match self {
            TempValue::Int(i) => TempValue::Int(*i),
            TempValue::FloatBits(b) => TempValue::FloatBits(*b),
            TempValue::Text(s) => TempValue::Text(s.clone()),
        }
    }
}

/// What a typed read of the scratch map yields: the stored value when the key
/// is present and its kind matches the requested one, nothing otherwise.
pub open spec fn temp_lookup(m: Map<Seq<char>, TempVal>, key: Seq<char>, kind: TempKind) -> Option<
    TempVal,
> {
    if m.contains_key(key) && m[key].kind() == kind {
        Some(m[key])
    } else {
        None
    }
}

/// The scratch-storage context. Its view is the map from key characters to
/// stored values.
pub struct Data {
    entries: StringHashMap<TempValue>,
}

impl View for Data {
    type V = Map<Seq<char>, TempVal>;

    closed spec fn view(&self) -> Map<Seq<char>, TempVal> {
        self.entries@.map_values(|v: TempValue| v@)
    }
}

impl Data {
    /// An empty scratch map.
    pub fn new() -> (d: Data)
        ensures
            d@ == Map::<Seq<char>, TempVal>::empty(),
    {
        let d = Data { entries: StringHashMap::new() };
        proof {
            assert(d@ =~= Map::<Seq<char>, TempVal>::empty());
        }
        d
    }

    /// Stores `v` under `key`, replacing any earlier entry for that key.
    pub fn set_temp_value(&mut self, key: &str, v: TempValue)
        ensures
            final(self)@ == old(self)@.insert(key@, v@),
    {
        let ghost vv = v@;
        let owned: String = key.to_owned();
        self.entries.insert(owned, v);
        proof {
            assert(self@ =~= old(self)@.insert(key@, vv));
        }
    }

    /// Reads the entry under `key` at the requested kind. Yields the stored
    /// value exactly when the key is present and was stored at that kind.
    pub fn get_temp_value(&self, key: &str, kind: TempKind) -> (r: Option<TempValue>)
        ensures
            match r {
                Some(v) => temp_lookup(self@, key@, kind) == Some(v@),
                None => temp_lookup(self@, key@, kind) is None,
            },
    {
        match self.entries.get(key) {
            Some(v) => {
                if v.kind() == kind {
                    Some(v.duplicate())
                } else {
                    None
                }
            },
            None => None,
        }
    }

    /// Drops the entry under `key`, if any.
    pub fn remove_temp_value(&mut self, key: &str)
        ensures
            final(self)@ == old(self)@.remove(key@),
    {
        self.entries.remove(key);
        proof {
            assert(self@ =~= old(self)@.remove(key@));
        }
    }
}

/// A key that no insertion has touched is absent, and a typed read of an
/// absent key yields nothing, whatever kind is requested.
pub proof fn lemma_get_absent_key(m: Map<Seq<char>, TempVal>, key: Seq<char>, kind: TempKind)
    requires
        !m.contains_key(key),
    ensures
        temp_lookup(m, key, kind) is None,
{
}

/// Storing under one key leaves every other key as absent as it was, so a key
/// never inserted stays absent under any sequence of stores to other keys.
pub proof fn lemma_set_keeps_other_keys_absent(
    m: Map<Seq<char>, TempVal>,
    key: Seq<char>,
    other: Seq<char>,
    v: TempVal,
)
    requires
        !m.contains_key(key),
        other != key,
    ensures
        !m.insert(other, v).contains_key(key),
{
}

/// Storing a value and reading the same key back at the stored kind returns
/// exactly that value.
pub proof fn lemma_set_then_get(m: Map<Seq<char>, TempVal>, key: Seq<char>, v: TempVal)
    ensures
        temp_lookup(m.insert(key, v), key, v.kind()) == Some(v),
{
}

/// Reading a key at a kind other than the kind it was stored at yields
/// nothing.
pub proof fn lemma_get_wrong_kind(m: Map<Seq<char>, TempVal>, key: Seq<char>, kind: TempKind)
    requires
        m.contains_key(key),
        m[key].kind() != kind,
    ensures
        temp_lookup(m, key, kind) is None,
{
}

/// Storing a value and reading the same key back at a different kind yields
/// nothing.
pub proof fn lemma_set_then_get_wrong_kind(
    m: Map<Seq<char>, TempVal>,
    key: Seq<char>,
    v: TempVal,
    kind: TempKind,
)
    requires
        kind != v.kind(),
    ensures
        temp_lookup(m.insert(key, v), key, kind) is None,
{
}

/// Removing a key and then reading it yields nothing, for any key and any
/// requested kind.
pub proof fn lemma_remove_then_get(m: Map<Seq<char>, TempVal>, key: Seq<char>, kind: TempKind)
    ensures
        temp_lookup(m.remove(key), key, kind) is None,
{
}

} // verus!
