use signal_stores::keys::KeyPair;
use signal_stores::memory::{
    InMemoryIdentityKeyStore, InMemoryPreKeyStore, InMemorySessionStore,
};
use signal_stores::{
    Address, IdentityKeyStore, PreKeyStore, PrivateKey, SessionStore, SignalError,
};

fn identity_store() -> InMemoryIdentityKeyStore {
    let private = PrivateKey::decode_point(&[0x21u8; 32]).unwrap();
    InMemoryIdentityKeyStore::new(&KeyPair::from_private(private), 4711)
}

fn addr(name: &[u8], device_id: i32) -> Address {
    Address::new(name.to_vec(), device_id)
}

#[test]
fn identity_store_exposes_pair_and_registration_id() {
    let store = identity_store();
    let (public, private) = store.identity_key_pair().unwrap();
    assert_eq!(public.len(), 33);
    assert_eq!(private, vec![0x21u8; 32]);
    assert_eq!(store.local_registration_id(), Ok(4711));
}

#[test]
fn trust_on_first_use() {
    let mut store = identity_store();
    let alice = addr(b"alice", 1);

    // No identity on record: any key is trusted.
    assert_eq!(store.get_identity(&alice), Ok(None));
    assert_eq!(store.is_trusted_identity(&alice, &[1, 2, 3]), Ok(true));
    assert_eq!(store.is_trusted_identity(&alice, &[9, 9, 9]), Ok(true));

    // One on record: exactly the recorded key is trusted.
    store.save_identity(&alice, &[1, 2, 3]).unwrap();
    assert_eq!(store.get_identity(&alice), Ok(Some(vec![1, 2, 3])));
    assert_eq!(store.is_trusted_identity(&alice, &[1, 2, 3]), Ok(true));
    assert_eq!(store.is_trusted_identity(&alice, &[9, 9, 9]), Ok(false));

    // Another device is a separate record.
    let alice_tablet = addr(b"alice", 2);
    assert_eq!(store.is_trusted_identity(&alice_tablet, &[9, 9, 9]), Ok(true));
}

#[test]
fn saving_an_empty_key_deletes_but_keeps_metadata() {
    let mut store = identity_store();
    let alice = addr(b"alice", 1);

    store.save_identity(&alice, &[1, 2, 3]).unwrap();
    store.set_metadata(&alice, b"first seen tuesday");
    store.save_identity(&alice, &[]).unwrap();

    assert_eq!(store.get_identity(&alice), Ok(None));
    assert_eq!(store.is_trusted_identity(&alice, &[9, 9, 9]), Ok(true));
    assert_eq!(
        store.get_metadata(&alice),
        Some(b"first seen tuesday".to_vec())
    );
}

#[test]
fn save_identity_overwrites() {
    let mut store = identity_store();
    let alice = addr(b"alice", 1);
    store.save_identity(&alice, &[1]).unwrap();
    store.save_identity(&alice, &[2]).unwrap();
    assert_eq!(store.get_identity(&alice), Ok(Some(vec![2])));
}

#[test]
fn pre_key_crud() {
    let mut store = InMemoryPreKeyStore::new();
    assert!(!store.contains(1));
    store.store(1, &[0xAA, 0xBB]).unwrap();
    assert!(store.contains(1));
    assert_eq!(store.load(1), Ok(vec![0xAA, 0xBB]));
    store.remove(1).unwrap();
    assert!(!store.contains(1));
    assert_eq!(store.load(1), Err(SignalError::NotFound));
}

#[test]
fn pre_key_store_overwrites() {
    let mut store = InMemoryPreKeyStore::new();
    store.store(7, &[1]).unwrap();
    store.store(7, &[2, 3]).unwrap();
    assert_eq!(store.load(7), Ok(vec![2, 3]));
    assert!(store.contains(7));
}

#[test]
fn session_store_crud_and_sub_devices() {
    let mut store = InMemorySessionStore::new();
    let phone = addr(b"carol", 1);
    let tablet = addr(b"carol", 3);
    let other = addr(b"dave", 1);

    assert_eq!(store.load_session(&phone), Ok(None));
    store.store_session(&phone, &[10]).unwrap();
    store.store_session(&tablet, &[11]).unwrap();
    store.store_session(&other, &[12]).unwrap();

    assert_eq!(store.contains_session(&phone), Ok(true));
    assert_eq!(store.load_session(&phone), Ok(Some(vec![10])));

    let mut ids = store.sub_device_sessions(b"carol").unwrap();
    ids.sort();
    assert_eq!(ids, vec![1, 3]);

    store.delete_session(&phone).unwrap();
    assert_eq!(store.contains_session(&phone), Ok(false));
    assert_eq!(store.load_session(&phone), Ok(None));
    let ids = store.sub_device_sessions(b"carol").unwrap();
    assert_eq!(ids, vec![3]);
}
