//! The registry: who may create, read and move which token record, and when.
use vstd::prelude::*;

use crate::identity::{bytes_equal, Identity};
use crate::storage::{DataKey, Store};

verus! {

/// Why an operation of the registry was refused. A refused operation leaves
/// the store as it was.
#[derive(Clone, Copy, Debug, PartialEq, Eq, Structural)]
pub enum NftError {
    /// The admin slot is already set.
    AlreadyInitialized,
    /// No admin has been set yet.
    NotInitialized,
    /// The caller is not the identity the operation demands.
    Unauthorized,
    /// A token with this id has already been minted.
    DuplicateToken,
    /// No token with this id has been minted.
    TokenNotFound,
}

/// Every minted token has both its owner and its metadata pointer; no id
/// has only one of the two.
pub open spec fn records_paired(s: Map<DataKey, Seq<u8>>) -> bool {
    forall|id: u64|
        #![trigger s.contains_key(DataKey::TokenOwner(id))]
        #![trigger s.contains_key(DataKey::TokenURI(id))]
        s.contains_key(DataKey::TokenOwner(id)) <==> s.contains_key(DataKey::TokenURI(id))
}

/// Whether `token_id` has been minted.
pub open spec fn minted(s: Map<DataKey, Seq<u8>>, token_id: u64) -> bool {
    s.contains_key(DataKey::TokenOwner(token_id))
}

/// The verdict of `initialize` on store contents `s`.
pub open spec fn initialize_outcome(s: Map<DataKey, Seq<u8>>) -> Result<(), NftError> {
    if s.contains_key(DataKey::Admin) {
        Err(NftError::AlreadyInitialized)
    } else {
        Ok(())
    }
}

/// The store contents after `initialize(admin)`.
pub open spec fn after_initialize(s: Map<DataKey, Seq<u8>>, admin: Seq<u8>) -> Map<
    DataKey,
    Seq<u8>,
> {
    if initialize_outcome(s) is Ok {
        s.insert(DataKey::Admin, admin)
    } else {
        s
    }
}

/// The verdict of `mint` by `caller` of `token_id`: the admin must be set,
/// the caller must be that admin, and the id must be fresh, checked in that
/// order.
pub open spec fn mint_outcome(s: Map<DataKey, Seq<u8>>, caller: Seq<u8>, token_id: u64) -> Result<
    (),
    NftError,
> {
    if !s.contains_key(DataKey::Admin) {
        Err(NftError::NotInitialized)
    } else if s[DataKey::Admin] != caller {
        Err(NftError::Unauthorized)
    } else if minted(s, token_id) {
        Err(NftError::DuplicateToken)
    } else {
        Ok(())
    }
}

/// The store contents after `mint`: on success owner and metadata pointer
/// are written together.
pub open spec fn after_mint(
    s: Map<DataKey, Seq<u8>>,
    caller: Seq<u8>,
    to: Seq<u8>,
    token_id: u64,
    uri: Seq<u8>,
) -> Map<DataKey, Seq<u8>> {
    if mint_outcome(s, caller, token_id) is Ok {
        s.insert(DataKey::TokenOwner(token_id), to).insert(DataKey::TokenURI(token_id), uri)
    } else {
        s
    }
}

/// The answer of `owner_of(token_id)`.
pub open spec fn owner_outcome(s: Map<DataKey, Seq<u8>>, token_id: u64) -> Result<
    Seq<u8>,
    NftError,
> {
    if s.contains_key(DataKey::TokenOwner(token_id)) {
        Ok(s[DataKey::TokenOwner(token_id)])
    } else {
        Err(NftError::TokenNotFound)
    }
}

/// The answer of `token_uri(token_id)`.
pub open spec fn uri_outcome(s: Map<DataKey, Seq<u8>>, token_id: u64) -> Result<
    Seq<u8>,
    NftError,
> {
    if s.contains_key(DataKey::TokenURI(token_id)) {
        Ok(s[DataKey::TokenURI(token_id)])
    } else {
        Err(NftError::TokenNotFound)
    }
}

/// The verdict of `transfer` of `token_id` claimed by `from`: the token must
/// exist and `from` must be its current owner.
pub open spec fn transfer_outcome(s: Map<DataKey, Seq<u8>>, from: Seq<u8>, token_id: u64) -> Result<
    (),
    NftError,
> {
    if !minted(s, token_id) {
        Err(NftError::TokenNotFound)
    } else if s[DataKey::TokenOwner(token_id)] != from {
        Err(NftError::Unauthorized)
    } else {
        Ok(())
    }
}

/// The store contents after `transfer`: on success only the owner changes.
pub open spec fn after_transfer(
    s: Map<DataKey, Seq<u8>>,
    from: Seq<u8>,
    to: Seq<u8>,
    token_id: u64,
) -> Map<DataKey, Seq<u8>> {
    if transfer_outcome(s, from, token_id) is Ok {
        s.insert(DataKey::TokenOwner(token_id), to)
    } else {
        s
    }
}

/// The registry's entry points. All state is in the [`Store`] handed to
/// each of them.
#[derive(Debug)]
pub struct NFTContract;

impl NFTContract {
    /// Sets the admin, once.
    pub fn initialize(store: &mut Store, admin: Identity) -> (r: Result<(), NftError>)
        ensures
            r == initialize_outcome(old(store)@),
            final(store)@ == after_initialize(old(store)@, admin@),
    {
        let key = DataKey::Admin;
        if store.has(&key) {
            return Err(NftError::AlreadyInitialized);
        }
        store.set(&key, admin.into_bytes());
        Ok(())
    }

    /// Mints `token_id` to `to` with metadata pointer `metadata_uri`, on
    /// behalf of the authenticated `caller`, who must be the admin.
    pub fn mint(
        store: &mut Store,
        caller: Identity,
        to: Identity,
        token_id: u64,
        metadata_uri: Vec<u8>,
    ) -> (r: Result<(), NftError>)
        ensures
            r == mint_outcome(old(store)@, caller@, token_id),
            final(store)@ == after_mint(old(store)@, caller@, to@, token_id, metadata_uri@),
    {
        let admin = match store.get(&DataKey::Admin) {
            Some(a) => a,
            None => return Err(NftError::NotInitialized),
        };
        if !bytes_equal(admin.as_slice(), caller.as_bytes()) {
            return Err(NftError::Unauthorized);
        }
        let owner_key = DataKey::TokenOwner(token_id);
        let uri_key = DataKey::TokenURI(token_id);
        if store.has(&owner_key) {
            return Err(NftError::DuplicateToken);
        }
        store.set(&owner_key, to.into_bytes());
        store.set(&uri_key, metadata_uri);
        Ok(())
    }

    /// The current owner of `token_id`.
    pub fn owner_of(store: &Store, token_id: u64) -> (r: Result<Identity, NftError>)
        ensures
            match r {
                Ok(owner) => owner_outcome(store@, token_id) == Ok::<Seq<u8>, NftError>(owner@),
                Err(e) => owner_outcome(store@, token_id) == Err::<Seq<u8>, NftError>(e),
            },
    {
        match store.get(&DataKey::TokenOwner(token_id)) {
            Some(bytes) => Ok(Identity::new(bytes)),
            None => Err(NftError::TokenNotFound),
        }
    }

    /// The metadata pointer of `token_id`.
    pub fn token_uri(store: &Store, token_id: u64) -> (r: Result<Vec<u8>, NftError>)
        ensures
            match r {
                Ok(uri) => uri_outcome(store@, token_id) == Ok::<Seq<u8>, NftError>(uri@),
                Err(e) => uri_outcome(store@, token_id) == Err::<Seq<u8>, NftError>(e),
            },
    {
        match store.get(&DataKey::TokenURI(token_id)) {
            Some(bytes) => Ok(bytes),
            None => Err(NftError::TokenNotFound),
        }
    }

    /// Moves `token_id` from its current owner `from` to `to`.
    pub fn transfer(store: &mut Store, from: Identity, to: Identity, token_id: u64) -> (r: Result<
        (),
        NftError,
    >)
        ensures
            r == transfer_outcome(old(store)@, from@, token_id),
            final(store)@ == after_transfer(old(store)@, from@, to@, token_id),
    {
        let owner_key = DataKey::TokenOwner(token_id);
        let current_owner = match store.get(&owner_key) {
            Some(o) => o,
            None => return Err(NftError::TokenNotFound),
        };
        if !bytes_equal(current_owner.as_slice(), from.as_bytes()) {
            return Err(NftError::Unauthorized);
        }
        store.set(&owner_key, to.into_bytes());
        Ok(())
    }
}

} // verus!
