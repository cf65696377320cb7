use signal_stores::adapter::PreKeyStoreAdapter;
use signal_stores::error::{CODE_FALSE, CODE_STORE_CALLBACK_FAILURE, CODE_SUCCESS};
use signal_stores::keys::KeyPair;
use signal_stores::memory::{
    InMemoryIdentityKeyStore, InMemoryPreKeyStore, InMemorySessionStore,
    InMemorySignedPreKeyStore,
};
use signal_stores::{
    Address, PreKeyRecord, PreKeyStore, PrivateKey, SessionStore, SignalError, SignedPreKeyRecord,
    StoreContext,
};

type InMemoryContext = StoreContext<
    InMemoryIdentityKeyStore,
    InMemoryPreKeyStore,
    InMemorySignedPreKeyStore,
    InMemorySessionStore,
>;

fn in_memory_context(session_store: InMemorySessionStore) -> InMemoryContext {
    let private = PrivateKey::decode_point(&[0x33u8; 32]).unwrap();
    let identity = InMemoryIdentityKeyStore::new(&KeyPair::from_private(private), 9000);
    StoreContext::new(
        identity,
        InMemoryPreKeyStore::new(),
        InMemorySignedPreKeyStore::new(),
        session_store,
    )
}

#[test]
fn end_to_end_session_lifecycle() {
    let context = in_memory_context(InMemorySessionStore::new());
    let never_seen = Address::new(b"erin".to_vec(), 1);

    // A never-seen address still yields a fresh record to start from.
    let record = context.load_session(&never_seen).unwrap();
    assert!(record.is_fresh());
    assert_eq!(record.serialize(), Vec::<u8>::new());

    let mut context = context;
    context.delete_session(&never_seen).unwrap();
    assert_eq!(context.contains_session(&never_seen), Ok(false));
}

#[test]
fn load_session_returns_stored_record() {
    let mut sessions = InMemorySessionStore::new();
    let frank = Address::new(b"frank".to_vec(), 2);
    sessions.store_session(&frank, &[1, 2, 3]).unwrap();
    let mut context = in_memory_context(sessions);

    let record = context.load_session(&frank).unwrap();
    assert!(!record.is_fresh());
    assert_eq!(record.serialize(), vec![1, 2, 3]);
    assert_eq!(context.contains_session(&frank), Ok(true));

    context.delete_session(&frank).unwrap();
    assert_eq!(context.contains_session(&frank), Ok(false));
    assert!(context.load_session(&frank).unwrap().is_fresh());
}

#[test]
fn context_exposes_identity_and_registration() {
    let context = in_memory_context(InMemorySessionStore::new());
    assert_eq!(context.registration_id(), Ok(9000));
    let pair = context.identity_key_pair().unwrap();
    assert_eq!(pair.private.serialize(), vec![0x33u8; 32]);
    let reference = PrivateKey::decode_point(&[0x33u8; 32])
        .unwrap()
        .generate_public_key()
        .unwrap();
    assert!(pair.public == reference);
}

#[test]
fn context_stores_pre_keys() {
    let mut context = in_memory_context(InMemorySessionStore::new());
    context
        .store_pre_key(&PreKeyRecord { id: 1, body: vec![0xAA, 0xBB] })
        .unwrap();
    context
        .store_signed_pre_key(&SignedPreKeyRecord { id: 2, body: vec![0xCC] })
        .unwrap();
}

#[test]
fn sub_device_sessions_through_context() {
    let mut sessions = InMemorySessionStore::new();
    sessions.store_session(&Address::new(b"grace".to_vec(), 4), &[1]).unwrap();
    sessions.store_session(&Address::new(b"grace".to_vec(), 9), &[2]).unwrap();
    sessions.store_session(&Address::new(b"heidi".to_vec(), 4), &[3]).unwrap();
    let context = in_memory_context(sessions);

    let mut ids = context.get_sub_device_sessions(b"grace").unwrap();
    ids.sort();
    assert_eq!(ids, vec![4, 9]);
    assert_eq!(context.get_sub_device_sessions(b"ivan"), Ok(Vec::new()));
}

/// A pre-key store whose backend is broken: every fallible operation
/// reports a failure.
struct BrokenPreKeyStore;

impl PreKeyStore for BrokenPreKeyStore {
    // Ghost state: never invoked at run time.
    fn pre_keys(&self) -> vstd::map::Map<u32, vstd::seq::Seq<u8>> {
        unreachable!()
    }

    fn load(&self, _id: u32) -> Result<Vec<u8>, SignalError> {
        Err(SignalError::StoreCallbackFailure)
    }

    fn store(&mut self, _id: u32, _body: &[u8]) -> Result<(), SignalError> {
        Err(SignalError::StoreCallbackFailure)
    }

    fn contains(&self, _id: u32) -> bool {
        false
    }

    fn remove(&mut self, _id: u32) -> Result<(), SignalError> {
        Err(SignalError::StoreCallbackFailure)
    }
}

#[test]
fn broken_store_degrades_to_failure_status() {
    // Fault isolation at the engine boundary: a broken store makes every
    // entry point report a failure status; none of them crashes.
    let mut adapter = PreKeyStoreAdapter::new(BrokenPreKeyStore);
    let (code, body) = adapter.load_pre_key(1);
    assert_eq!(code, CODE_STORE_CALLBACK_FAILURE);
    assert!(body.is_none());
    assert_eq!(adapter.store_pre_key(1, &[1]), CODE_STORE_CALLBACK_FAILURE);
    assert_eq!(adapter.remove_pre_key(1), CODE_STORE_CALLBACK_FAILURE);
    assert_eq!(adapter.contains_pre_key(1), CODE_FALSE);
}

#[test]
fn broken_store_surfaces_through_the_context() {
    let private = PrivateKey::decode_point(&[0x33u8; 32]).unwrap();
    let identity = InMemoryIdentityKeyStore::new(&KeyPair::from_private(private), 9000);
    let mut context = StoreContext::new(
        identity,
        BrokenPreKeyStore,
        InMemorySignedPreKeyStore::new(),
        InMemorySessionStore::new(),
    );
    assert_eq!(
        context.store_pre_key(&PreKeyRecord { id: 1, body: vec![1] }),
        Err(SignalError::StoreCallbackFailure)
    );
}

#[test]
fn working_adapter_reports_success_codes() {
    let mut adapter = PreKeyStoreAdapter::new(InMemoryPreKeyStore::new());
    assert_eq!(adapter.contains_pre_key(1), CODE_FALSE);
    assert_eq!(adapter.store_pre_key(1, &[0xAA]), CODE_SUCCESS);
    assert_eq!(adapter.contains_pre_key(1), CODE_SUCCESS);
    let (code, body) = adapter.load_pre_key(1);
    assert_eq!(code, CODE_SUCCESS);
    assert_eq!(body, Some(vec![0xAA]));
    assert_eq!(adapter.remove_pre_key(1), CODE_SUCCESS);
    assert_eq!(adapter.contains_pre_key(1), CODE_FALSE);
}
