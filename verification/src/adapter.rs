//! The callback contract the protocol engine invokes during handshake and
//! message processing.
//!
//! Each adapter owns one application-supplied store and exposes entry
//! points that take only primitive and byte arguments and report through
//! the integer status codes of the fixed table: `1` for success or "true",
//! `0` for "false / not trusted / no record", and a negative code for every
//! failure. Fault isolation is by construction: every entry point is
//! verified total, so a broken store degrades each operation to a failure
//! status and nothing unwinds into the engine.

use vstd::prelude::*;
use crate::address::Address;
use crate::error::{code_of, CODE_FALSE, CODE_SUCCESS};
use crate::stores::{
    spec_trusted,
    IdentityKeyStore,
    PreKeyStore,
    SessionStore,
    SignedPreKeyStore,
};

verus! {

/// Binds an identity key store to the engine's entry points.
pub struct IdentityKeyStoreAdapter<I: IdentityKeyStore> {
    store: I,
}

impl<I: IdentityKeyStore> IdentityKeyStoreAdapter<I> {
    /// The wrapped store.
    pub closed spec fn inner(&self) -> I {
        self.store
    }

    /// Take ownership of a store; the adapter frees it when it is itself
    /// dropped, so the store lives exactly as long as its registration.
    pub fn new(store: I) -> (r: Self)
        ensures
            r.inner() == store,
    {
        IdentityKeyStoreAdapter { store }
    }

    /// Entry point: the local identity key pair, as serialized
    /// `(public, private)` bytes beside a success code.
    pub fn get_identity_key_pair(&self) -> (r: (i32, Option<(Vec<u8>, Vec<u8>)>))
        ensures
            r.0 == CODE_SUCCESS <==> r.1 is Some,
            r.1 matches Some(kp) ==> (kp.0@, kp.1@) == self.inner().local_key_pair(),
            r.0 != CODE_SUCCESS ==> r.0 < 0,
    {
        match self.store.identity_key_pair() {
            Ok(kp) => (CODE_SUCCESS, Some(kp)),
            Err(e) => (code_of(e), None),
        }
    }

    /// Entry point: the local registration id beside a success code.
    pub fn get_local_registration_id(&self) -> (r: (i32, Option<u32>))
        ensures
            r.0 == CODE_SUCCESS <==> r.1 is Some,
            r.1 matches Some(id) ==> id == self.inner().local_id(),
            r.0 != CODE_SUCCESS ==> r.0 < 0,
    {
        match self.store.local_registration_id() {
            Ok(id) => (CODE_SUCCESS, Some(id)),
            Err(e) => (code_of(e), None),
        }
    }

    /// Entry point: is a presented identity key trusted for an address?
    /// Reports "true", "false", or a failure code.
    pub fn is_trusted_identity(&self, address: &Address, identity_key: &[u8]) -> (code: i32)
        ensures
            code == CODE_SUCCESS ==> spec_trusted(
                self.inner().identities(),
                address@,
                identity_key@,
            ),
            code == CODE_FALSE ==> !spec_trusted(
                self.inner().identities(),
                address@,
                identity_key@,
            ),
            code != CODE_SUCCESS && code != CODE_FALSE ==> code < 0,
    {
        match self.store.is_trusted_identity(address, identity_key) {
            Ok(true) => CODE_SUCCESS,
            Ok(false) => CODE_FALSE,
            Err(e) => code_of(e),
        }
    }

    /// Entry point: the recorded identity for an address beside a success
    /// code; "false" reports that no identity is on record.
    pub fn get_identity(&self, address: &Address) -> (r: (i32, Option<Vec<u8>>))
        ensures
            r.0 == CODE_SUCCESS ==> (r.1 matches Some(key)
                && self.inner().identities().contains_key(address@) && key@
                == self.inner().identities()[address@]),
            r.0 == CODE_FALSE ==> r.1 is None && !self.inner().identities().contains_key(address@),
            r.0 != CODE_SUCCESS && r.0 != CODE_FALSE ==> r.0 < 0 && r.1 is None,
    {
        match self.store.get_identity(address) {
            Ok(Some(key)) => (CODE_SUCCESS, Some(key)),
            Ok(None) => (CODE_FALSE, None),
            Err(e) => (code_of(e), None),
        }
    }

    /// Entry point: record (or, with an empty key, remove) the identity
    /// for an address.
    pub fn save_identity(&mut self, address: &Address, identity_key: &[u8]) -> (code: i32)
        ensures
            code == CODE_SUCCESS ==> final(self).inner().identities() == (if identity_key@.len()
                == 0 {
                old(self).inner().identities().remove(address@)
            } else {
                old(self).inner().identities().insert(address@, identity_key@)
            }),
            code == CODE_SUCCESS ==> final(self).inner().metadata() == old(self).inner().metadata(),
            code != CODE_SUCCESS ==> code < 0,
    {
        match self.store.save_identity(address, identity_key) {
            Ok(()) => CODE_SUCCESS,
            Err(e) => code_of(e),
        }
    }
}

/// Binds a pre-key store to the engine's entry points.
pub struct PreKeyStoreAdapter<P: PreKeyStore> {
    store: P,
}

impl<P: PreKeyStore> PreKeyStoreAdapter<P> {
    /// The wrapped store.
    pub closed spec fn inner(&self) -> P {
        self.store
    }

    /// Take ownership of a store.
    pub fn new(store: P) -> (r: Self)
        ensures
            r.inner() == store,
    {
        PreKeyStoreAdapter { store }
    }

    /// Entry point: the body stored under an id beside a success code; an
    /// absent id reports a failure, never a fabricated record.
    pub fn load_pre_key(&self, id: u32) -> (r: (i32, Option<Vec<u8>>))
        ensures
            r.0 == CODE_SUCCESS <==> r.1 is Some,
            r.1 matches Some(body) ==> self.inner().pre_keys().contains_key(id) && body@
                == self.inner().pre_keys()[id],
            !self.inner().pre_keys().contains_key(id) ==> r.0 < 0,
            r.0 != CODE_SUCCESS ==> r.0 < 0,
    {
        match self.store.load(id) {
            Ok(body) => (CODE_SUCCESS, Some(body)),
            Err(e) => (code_of(e), None),
        }
    }

    /// Entry point: persist a body under an id, overwriting any present
    /// one.
    pub fn store_pre_key(&mut self, id: u32, body: &[u8]) -> (code: i32)
        ensures
            code == CODE_SUCCESS ==> final(self).inner().pre_keys() == old(
                self,
            ).inner().pre_keys().insert(id, body@),
            code != CODE_SUCCESS ==> code < 0,
    {
        match self.store.store(id, body) {
            Ok(()) => CODE_SUCCESS,
            Err(e) => code_of(e),
        }
    }

    /// Entry point: is a pre-key with this id present? Observational and
    /// infallible: the report is exactly "true" or "false".
    pub fn contains_pre_key(&self, id: u32) -> (code: i32)
        ensures
            code == (if self.inner().pre_keys().contains_key(id) {
                CODE_SUCCESS
            } else {
                CODE_FALSE
            }),
    {
        if self.store.contains(id) {
            CODE_SUCCESS
        } else {
            CODE_FALSE
        }
    }

    /// Entry point: delete the pre-key with an id.
    pub fn remove_pre_key(&mut self, id: u32) -> (code: i32)
        ensures
            code == CODE_SUCCESS ==> final(self).inner().pre_keys() == old(
                self,
            ).inner().pre_keys().remove(id),
            code != CODE_SUCCESS ==> code < 0,
    {
        match self.store.remove(id) {
            Ok(()) => CODE_SUCCESS,
            Err(e) => code_of(e),
        }
    }
}

/// Binds a signed pre-key store to the engine's entry points.
pub struct SignedPreKeyStoreAdapter<S: SignedPreKeyStore> {
    store: S,
}

impl<S: SignedPreKeyStore> SignedPreKeyStoreAdapter<S> {
    /// The wrapped store.
    pub closed spec fn inner(&self) -> S {
        self.store
    }

    /// Take ownership of a store.
    pub fn new(store: S) -> (r: Self)
        ensures
            r.inner() == store,
    {
        SignedPreKeyStoreAdapter { store }
    }

    /// Entry point: the body stored under an id beside a success code.
    pub fn load_signed_pre_key(&self, id: u32) -> (r: (i32, Option<Vec<u8>>))
        ensures
            r.0 == CODE_SUCCESS <==> r.1 is Some,
            r.1 matches Some(body) ==> self.inner().signed_pre_keys().contains_key(id) && body@
                == self.inner().signed_pre_keys()[id],
            !self.inner().signed_pre_keys().contains_key(id) ==> r.0 < 0,
            r.0 != CODE_SUCCESS ==> r.0 < 0,
    {
        match self.store.load(id) {
            Ok(body) => (CODE_SUCCESS, Some(body)),
            Err(e) => (code_of(e), None),
        }
    }

    /// Entry point: persist a body under an id, overwriting any present
    /// one.
    pub fn store_signed_pre_key(&mut self, id: u32, body: &[u8]) -> (code: i32)
        ensures
            code == CODE_SUCCESS ==> final(self).inner().signed_pre_keys() == old(
                self,
            ).inner().signed_pre_keys().insert(id, body@),
            code != CODE_SUCCESS ==> code < 0,
    {
        match self.store.store(id, body) {
            Ok(()) => CODE_SUCCESS,
            Err(e) => code_of(e),
        }
    }

    /// Entry point: is a signed pre-key with this id present?
    pub fn contains_signed_pre_key(&self, id: u32) -> (code: i32)
        ensures
            code == (if self.inner().signed_pre_keys().contains_key(id) {
                CODE_SUCCESS
            } else {
                CODE_FALSE
            }),
    {
        if self.store.contains(id) {
            CODE_SUCCESS
        } else {
            CODE_FALSE
        }
    }

    /// Entry point: delete the signed pre-key with an id.
    pub fn remove_signed_pre_key(&mut self, id: u32) -> (code: i32)
        ensures
            code == CODE_SUCCESS ==> final(self).inner().signed_pre_keys() == old(
                self,
            ).inner().signed_pre_keys().remove(id),
            code != CODE_SUCCESS ==> code < 0,
    {
        match self.store.remove(id) {
            Ok(()) => CODE_SUCCESS,
            Err(e) => code_of(e),
        }
    }
}

/// Binds a session store to the engine's entry points.
pub struct SessionStoreAdapter<S: SessionStore> {
    store: S,
}

impl<S: SessionStore> SessionStoreAdapter<S> {
    /// The wrapped store.
    pub closed spec fn inner(&self) -> S {
        self.store
    }

    /// Take ownership of a store.
    pub fn new(store: S) -> (r: Self)
        ensures
            r.inner() == store,
    {
        SessionStoreAdapter { store }
    }

    /// Entry point: the serialized session for an address beside a success
    /// code; "false" reports that no session is on record.
    pub fn load_session(&self, address: &Address) -> (r: (i32, Option<Vec<u8>>))
        ensures
            r.0 == CODE_SUCCESS ==> (r.1 matches Some(s)
                && self.inner().sessions().contains_key(address@) && s@
                == self.inner().sessions()[address@]),
            r.0 == CODE_FALSE ==> r.1 is None && !self.inner().sessions().contains_key(address@),
            r.0 != CODE_SUCCESS && r.0 != CODE_FALSE ==> r.0 < 0 && r.1 is None,
    {
        match self.store.load_session(address) {
            Ok(Some(s)) => (CODE_SUCCESS, Some(s)),
            Ok(None) => (CODE_FALSE, None),
            Err(e) => (code_of(e), None),
        }
    }

    /// Entry point: persist serialized session state for an address.
    pub fn store_session(&mut self, address: &Address, record: &[u8]) -> (code: i32)
        ensures
            code == CODE_SUCCESS ==> final(self).inner().sessions() == old(
                self,
            ).inner().sessions().insert(address@, record@),
            code != CODE_SUCCESS ==> code < 0,
    {
        match self.store.store_session(address, record) {
            Ok(()) => CODE_SUCCESS,
            Err(e) => code_of(e),
        }
    }

    /// Entry point: is a session on record for an address? Reports "true",
    /// "false", or a failure code.
    pub fn contains_session(&self, address: &Address) -> (code: i32)
        ensures
            code == CODE_SUCCESS ==> self.inner().sessions().contains_key(address@),
            code == CODE_FALSE ==> !self.inner().sessions().contains_key(address@),
            code != CODE_SUCCESS && code != CODE_FALSE ==> code < 0,
    {
        match self.store.contains_session(address) {
            Ok(true) => CODE_SUCCESS,
            Ok(false) => CODE_FALSE,
            Err(e) => code_of(e),
        }
    }

    /// Entry point: delete the session for an address.
    pub fn delete_session(&mut self, address: &Address) -> (code: i32)
        ensures
            code == CODE_SUCCESS ==> final(self).inner().sessions() == old(
                self,
            ).inner().sessions().remove(address@),
            code != CODE_SUCCESS ==> code < 0,
    {
        match self.store.delete_session(address) {
            Ok(()) => CODE_SUCCESS,
            Err(e) => code_of(e),
        }
    }

    /// Entry point: the device ids of every session recorded under one
    /// name, beside a success code.
    pub fn get_sub_device_sessions(&self, name: &[u8]) -> (r: (i32, Option<Vec<i32>>))
        ensures
            r.0 == CODE_SUCCESS <==> r.1 is Some,
            r.1 matches Some(ids) ==> (forall|d: i32|
                ids@.contains(d) <==> self.inner().sessions().contains_key((name@, d))),
            r.1 matches Some(ids) ==> (forall|i: int, j: int|
                0 <= i < j < ids@.len() ==> ids@[i] != ids@[j]),
            r.0 != CODE_SUCCESS ==> r.0 < 0,
    {
        match self.store.sub_device_sessions(name) {
            Ok(ids) => (CODE_SUCCESS, Some(ids)),
            Err(e) => (code_of(e), None),
        }
    }
}

} // verus!
