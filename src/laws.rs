//! What holds of the registry across calls, proved over the transition
//! functions that the entry points' contracts are stated in.
use vstd::prelude::*;

use crate::registry::{
    after_initialize, after_mint, after_transfer, initialize_outcome, minted, mint_outcome,
    owner_outcome, records_paired, transfer_outcome, uri_outcome, NftError,
};
use crate::storage::DataKey;

verus! {

/// Initialization happens once: after a first `initialize`, whatever its
/// verdict, a second one fails with `AlreadyInitialized` and changes nothing,
/// and on a fresh store the admin left is the first one given.
pub proof fn lemma_initialize_once(s: Map<DataKey, Seq<u8>>, first: Seq<u8>, second: Seq<u8>)
    ensures
        initialize_outcome(after_initialize(s, first)) == Err::<(), NftError>(
            NftError::AlreadyInitialized,
        ),
        after_initialize(after_initialize(s, first), second) == after_initialize(s, first),
        !s.contains_key(DataKey::Admin) ==> after_initialize(
            after_initialize(s, first),
            second,
        )[DataKey::Admin] == first,
        s.contains_key(DataKey::Admin) ==> after_initialize(
            after_initialize(s, first),
            second,
        )[DataKey::Admin] == s[DataKey::Admin],
{
}

/// A minted id cannot be minted again: `mint` fails whoever calls it, with
/// `DuplicateToken` when the caller is the admin, and the token's owner and
/// metadata pointer stay as they were.
pub proof fn lemma_minted_id_is_not_reminted(
    s: Map<DataKey, Seq<u8>>,
    caller: Seq<u8>,
    to: Seq<u8>,
    token_id: u64,
    uri: Seq<u8>,
)
    requires
        minted(s, token_id),
    ensures
        mint_outcome(s, caller, token_id) is Err,
        s.contains_key(DataKey::Admin) && s[DataKey::Admin] == caller ==> mint_outcome(
            s,
            caller,
            token_id,
        ) == Err::<(), NftError>(NftError::DuplicateToken),
        after_mint(s, caller, to, token_id, uri) == s,
{
}

/// After a successful `mint` of an id, a second `mint` of that id by the
/// admin fails with `DuplicateToken`; by anyone else it fails as well; and
/// either way the first mint's owner and metadata pointer are kept.
pub proof fn lemma_second_mint_fails(
    s: Map<DataKey, Seq<u8>>,
    caller: Seq<u8>,
    to: Seq<u8>,
    token_id: u64,
    uri: Seq<u8>,
    caller2: Seq<u8>,
    to2: Seq<u8>,
    uri2: Seq<u8>,
)
    requires
        mint_outcome(s, caller, token_id) is Ok,
    ensures
        ({
            let s1 = after_mint(s, caller, to, token_id, uri);
            &&& mint_outcome(s1, caller2, token_id) is Err
            &&& caller2 == caller ==> mint_outcome(s1, caller2, token_id) == Err::<(), NftError>(
                NftError::DuplicateToken,
            )
            &&& owner_outcome(after_mint(s1, caller2, to2, token_id, uri2), token_id) == Ok::<
                Seq<u8>,
                NftError,
            >(to)
            &&& uri_outcome(after_mint(s1, caller2, to2, token_id, uri2), token_id) == Ok::<
                Seq<u8>,
                NftError,
            >(uri)
        }),
{
    let s1 = after_mint(s, caller, to, token_id, uri);
    assert(s1.contains_key(DataKey::Admin));
    assert(s1[DataKey::Admin] == s[DataKey::Admin]);
    lemma_minted_id_is_not_reminted(s1, caller2, to2, token_id, uri2);
}

/// Only the configured admin mints: any other caller gets `Unauthorized`
/// and no record is created.
pub proof fn lemma_mint_needs_admin(
    s: Map<DataKey, Seq<u8>>,
    caller: Seq<u8>,
    to: Seq<u8>,
    token_id: u64,
    uri: Seq<u8>,
)
    requires
        s.contains_key(DataKey::Admin),
        s[DataKey::Admin] != caller,
    ensures
        mint_outcome(s, caller, token_id) == Err::<(), NftError>(NftError::Unauthorized),
        after_mint(s, caller, to, token_id, uri) == s,
{
}

/// Only the current owner transfers: a `from` other than the stored owner
/// gets `Unauthorized` and the store is unchanged.
pub proof fn lemma_transfer_needs_owner(
    s: Map<DataKey, Seq<u8>>,
    from: Seq<u8>,
    to: Seq<u8>,
    token_id: u64,
)
    requires
        minted(s, token_id),
        s[DataKey::TokenOwner(token_id)] != from,
    ensures
        transfer_outcome(s, from, token_id) == Err::<(), NftError>(NftError::Unauthorized),
        after_transfer(s, from, to, token_id) == s,
{
}

/// After a successful `mint(to, id, uri)`, `owner_of(id)` is `to` and
/// `token_uri(id)` is `uri`.
pub proof fn lemma_read_after_mint(
    s: Map<DataKey, Seq<u8>>,
    caller: Seq<u8>,
    to: Seq<u8>,
    token_id: u64,
    uri: Seq<u8>,
)
    requires
        mint_outcome(s, caller, token_id) is Ok,
    ensures
        owner_outcome(after_mint(s, caller, to, token_id, uri), token_id) == Ok::<
            Seq<u8>,
            NftError,
        >(to),
        uri_outcome(after_mint(s, caller, to, token_id, uri), token_id) == Ok::<
            Seq<u8>,
            NftError,
        >(uri),
{
}

/// After a successful `transfer(from, to, id)`, `owner_of(id)` is `to` and
/// `token_uri(id)` is what it was.
pub proof fn lemma_read_after_transfer(
    s: Map<DataKey, Seq<u8>>,
    from: Seq<u8>,
    to: Seq<u8>,
    token_id: u64,
)
    requires
        transfer_outcome(s, from, token_id) is Ok,
    ensures
        owner_outcome(after_transfer(s, from, to, token_id), token_id) == Ok::<
            Seq<u8>,
            NftError,
        >(to),
        uri_outcome(after_transfer(s, from, to, token_id), token_id) == uri_outcome(s, token_id),
{
}

/// Reading an id that was never minted fails with `TokenNotFound`, for the
/// owner and for the metadata pointer alike.
pub proof fn lemma_unminted_reads_fail(s: Map<DataKey, Seq<u8>>, token_id: u64)
    requires
        records_paired(s),
        !minted(s, token_id),
    ensures
        owner_outcome(s, token_id) == Err::<Seq<u8>, NftError>(NftError::TokenNotFound),
        uri_outcome(s, token_id) == Err::<Seq<u8>, NftError>(NftError::TokenNotFound),
{
}

/// Owner and metadata pointer come and stay together: an empty store has
/// no half records, and no operation makes one.
pub proof fn lemma_records_stay_paired(
    s: Map<DataKey, Seq<u8>>,
    a: Seq<u8>,
    b: Seq<u8>,
    c: Seq<u8>,
    token_id: u64,
)
    requires
        records_paired(s),
    ensures
        records_paired(Map::<DataKey, Seq<u8>>::empty()),
        records_paired(after_initialize(s, a)),
        records_paired(after_mint(s, a, b, token_id, c)),
        records_paired(after_transfer(s, a, b, token_id)),
{
    let m = after_mint(s, a, b, token_id, c);
    assert forall|id: u64| #[trigger]
        m.contains_key(DataKey::TokenOwner(id)) <==> m.contains_key(DataKey::TokenURI(id)) by {
        if mint_outcome(s, a, token_id) is Ok {
            assert(s.contains_key(DataKey::TokenOwner(id)) <==> s.contains_key(
                DataKey::TokenURI(id),
            ));
        }
    }
}

/// Nothing is ever deleted, the admin never changes once set, and a
/// token's metadata pointer never changes once written.
pub proof fn lemma_history_kept(
    s: Map<DataKey, Seq<u8>>,
    a: Seq<u8>,
    b: Seq<u8>,
    c: Seq<u8>,
    token_id: u64,
    k: DataKey,
)
    requires
        records_paired(s),
        s.contains_key(k),
        k is Admin || k is TokenURI,
    ensures
        after_initialize(s, a).contains_key(k) && after_initialize(s, a)[k] == s[k],
        after_mint(s, a, b, token_id, c).contains_key(k) && after_mint(s, a, b, token_id, c)[k]
            == s[k],
        after_transfer(s, a, b, token_id).contains_key(k) && after_transfer(s, a, b, token_id)[k]
            == s[k],
{
    if let DataKey::TokenURI(id) = k {
        assert(s.contains_key(DataKey::TokenOwner(id)));
    }
}

/// No record is ever removed: every key present stays present through
/// each operation.
pub proof fn lemma_records_persist(
    s: Map<DataKey, Seq<u8>>,
    a: Seq<u8>,
    b: Seq<u8>,
    c: Seq<u8>,
    token_id: u64,
    k: DataKey,
)
    requires
        s.contains_key(k),
    ensures
        after_initialize(s, a).contains_key(k),
        after_mint(s, a, b, token_id, c).contains_key(k),
        after_transfer(s, a, b, token_id).contains_key(k),
{
}

} // verus!
