//! The key-value store that holds the registry's records.
use std::collections::HashMap;
use vstd::prelude::*;

use crate::identity::copy_bytes;

verus! {

broadcast use vstd::std_specs::hash::group_hash_axioms;

/// The three families of records. Every key names exactly one record slot.
#[derive(Clone, Copy, Debug, PartialEq, Eq, Structural)]
pub enum DataKey {
    /// The singleton slot of the admin identity.
    Admin,
    /// The owner of one token.
    TokenOwner(u64),
    /// The metadata pointer of one token.
    TokenURI(u64),
}

impl DataKey {
    /// The raw slot a key occupies: the admin takes slot 0, owners the odd
    /// slots and metadata pointers the even slots from 2 on.
    pub open spec fn slot(self) -> int {
        match self {
            DataKey::Admin => 0,
            DataKey::TokenOwner(id) => 2 * id + 1,
            DataKey::TokenURI(id) => 2 * id + 2,
        }
    }

    pub fn encode(&self) -> (r: u128)
        ensures
            r == self.slot(),
    {
        match self {
            DataKey::Admin => 0,
            DataKey::TokenOwner(id) => 2 * (*id as u128) + 1,
            DataKey::TokenURI(id) => 2 * (*id as u128) + 2,
        }
    }
}

/// Distinct keys never share a slot, so the three families cannot collide.
pub proof fn lemma_slot_injective(a: DataKey, b: DataKey)
    ensures
        a.slot() == b.slot() <==> a == b,
{
}

/// A store of byte values under [`DataKey`]s.
pub struct Store {
    entries: HashMap<u128, Vec<u8>>,
}

impl View for Store {
    type V = Map<DataKey, Seq<u8>>;

    closed spec fn view(&self) -> Map<DataKey, Seq<u8>> {
        Map::new(
            |k: DataKey| self.entries@.contains_key(k.slot() as u128),
            |k: DataKey| self.entries@[k.slot() as u128]@,
        )
    }
}

impl Store {
    /// An empty store.
    pub fn new() -> (r: Store)
        ensures
            r@ == Map::<DataKey, Seq<u8>>::empty(),
    {
        let r = Store { entries: HashMap::new() };
        assert(r@ =~= Map::<DataKey, Seq<u8>>::empty());
        r
    }

    /// Whether a value is stored under `key`.
    pub fn has(&self, key: &DataKey) -> (r: bool)
        ensures
            r == self@.contains_key(*key),
    {
        self.entries.contains_key(&key.encode())
    }

    /// The value stored under `key`, if any.
    pub fn get(&self, key: &DataKey) -> (r: Option<Vec<u8>>)
        ensures
            match r {
                Some(v) => self@.contains_key(*key) && v@ == self@[*key],
                None => !self@.contains_key(*key),
            },
    {
        match self.entries.get(&key.encode()) {
            Some(v) => Some(copy_bytes(v.as_slice())),
            None => None,
        }
    }

    /// Stores `value` under `key`, replacing what was there.
    pub fn set(&mut self, key: &DataKey, value: Vec<u8>)
        ensures
            final(self)@ == old(self)@.insert(*key, value@),
    {
        let code = key.encode();
        self.entries.insert(code, value);
        assert forall|k: DataKey| #[trigger] self@.contains_key(k) == old(self)@.insert(
            *key,
            value@,
        ).contains_key(k) by {
            lemma_slot_injective(k, *key);
        }
        assert forall|k: DataKey| #[trigger] self@.contains_key(k) implies self@[k] == old(
            self,
        )@.insert(*key, value@)[k] by {
            lemma_slot_injective(k, *key);
        }
        assert(self@ =~= old(self)@.insert(*key, value@));
    }
}

} // verus!
