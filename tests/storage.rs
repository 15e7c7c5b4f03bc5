use stellar_nft::{DataKey, Identity, Store};

#[test]
fn key_families_do_not_collide() {
    let mut store = Store::new();
    store.set(&DataKey::TokenOwner(0), b"owner".to_vec());
    assert!(!store.has(&DataKey::Admin));
    assert!(!store.has(&DataKey::TokenURI(0)));
    store.set(&DataKey::TokenURI(0), b"uri".to_vec());
    store.set(&DataKey::Admin, b"admin".to_vec());
    assert_eq!(store.get(&DataKey::TokenOwner(0)), Some(b"owner".to_vec()));
    assert_eq!(store.get(&DataKey::TokenURI(0)), Some(b"uri".to_vec()));
    assert_eq!(store.get(&DataKey::Admin), Some(b"admin".to_vec()));
    assert_eq!(store.get(&DataKey::TokenOwner(1)), None);
}

#[test]
fn key_encoding_values() {
    assert_eq!(DataKey::Admin.encode(), 0);
    assert_eq!(DataKey::TokenOwner(0).encode(), 1);
    assert_eq!(DataKey::TokenURI(0).encode(), 2);
    assert_eq!(DataKey::TokenOwner(3).encode(), 7);
    assert_eq!(DataKey::TokenURI(3).encode(), 8);
    assert_eq!(DataKey::TokenURI(u64::MAX).encode(), 2 * (u64::MAX as u128) + 2);
}

#[test]
fn set_replaces_value() {
    let mut store = Store::new();
    store.set(&DataKey::TokenOwner(5), b"x".to_vec());
    store.set(&DataKey::TokenOwner(5), b"y".to_vec());
    assert_eq!(store.get(&DataKey::TokenOwner(5)), Some(b"y".to_vec()));
}

#[test]
fn identity_equality_by_bytes() {
    let a = Identity::new(b"GABC".to_vec());
    let b = Identity::from_slice(b"GABC");
    let c = Identity::new(b"GABD".to_vec());
    assert!(a == b);
    assert!(a != c);
    assert!(a != Identity::new(b"GAB".to_vec()));
    assert!(a.duplicate() == a);
    assert_eq!(a.as_bytes(), b"GABC");
    assert_eq!(a.into_bytes(), b"GABC".to_vec());
}

#[test]
fn byte_helpers() {
    assert!(stellar_nft::identity::bytes_equal(b"", b""));
    assert!(!stellar_nft::identity::bytes_equal(b"a", b""));
    assert!(!stellar_nft::identity::bytes_equal(b"ab", b"ac"));
    assert_eq!(stellar_nft::identity::copy_bytes(b"xyz"), b"xyz".to_vec());
}
