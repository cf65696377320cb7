//! The store context: one handle binding identity, pre-key, signed
//! pre-key and session stores, through their engine adapters, for one
//! protocol engine instance.
//!
//! The context owns the adapters (and through them the stores), so no
//! store can be torn down while the engine-facing handle still exists.
//! Every operation goes through the same status-code entry points the
//! engine itself invokes, and maps a failure code back to its error kind.

use vstd::prelude::*;
use crate::adapter::{
    IdentityKeyStoreAdapter,
    PreKeyStoreAdapter,
    SessionStoreAdapter,
    SignedPreKeyStoreAdapter,
};
use crate::address::Address;
use crate::error::{error_of_code, SignalError, CODE_FALSE, CODE_SUCCESS};
use crate::keys::{spec_decode_public, KeyPair, PrivateKey, PublicKey, PRIVATE_KEY_LENGTH};
use crate::records::{PreKeyRecord, SessionRecord, SignedPreKeyRecord};
use crate::stores::{IdentityKeyStore, PreKeyStore, SessionStore, SignedPreKeyStore};

verus! {

/// State used by the protocol: one handle over the registered stores.
pub struct StoreContext<I: IdentityKeyStore, P: PreKeyStore, SP: SignedPreKeyStore, S: SessionStore> {
    identity: IdentityKeyStoreAdapter<I>,
    pre_keys: PreKeyStoreAdapter<P>,
    signed_pre_keys: SignedPreKeyStoreAdapter<SP>,
    sessions: SessionStoreAdapter<S>,
}

impl<I: IdentityKeyStore, P: PreKeyStore, SP: SignedPreKeyStore, S: SessionStore> StoreContext<
    I,
    P,
    SP,
    S,
> {
    /// The registered identity key store.
    pub closed spec fn identity_store(&self) -> I {
        self.identity.inner()
    }

    /// The registered pre-key store.
    pub closed spec fn pre_key_store(&self) -> P {
        self.pre_keys.inner()
    }

    /// The registered signed pre-key store.
    pub closed spec fn signed_pre_key_store(&self) -> SP {
        self.signed_pre_keys.inner()
    }

    /// The registered session store.
    pub closed spec fn session_store(&self) -> S {
        self.sessions.inner()
    }

    /// Register the four stores into one context.
    pub fn new(identity_store: I, pre_key_store: P, signed_pre_key_store: SP, session_store: S) -> (r:
        Self)
        ensures
            r.identity_store() == identity_store,
            r.pre_key_store() == pre_key_store,
            r.signed_pre_key_store() == signed_pre_key_store,
            r.session_store() == session_store,
    {
        StoreContext {
            identity: IdentityKeyStoreAdapter::new(identity_store),
            pre_keys: PreKeyStoreAdapter::new(pre_key_store),
            signed_pre_keys: SignedPreKeyStoreAdapter::new(signed_pre_key_store),
            sessions: SessionStoreAdapter::new(session_store),
        }
    }

    /// The identity key pair of this store, decoded from the serialized
    /// forms the store holds. Fails with `InvalidKey` on a misconfigured
    /// store — one whose serialized forms decode to no key pair.
    pub fn identity_key_pair(&self) -> (r: Result<KeyPair, SignalError>)
        ensures
            r matches Ok(kp) ==> ({
                let (public_bytes, private_bytes) = self.identity_store().local_key_pair();
                spec_decode_public(public_bytes) == Some(kp.public@) && kp.private@ == private_bytes
            }),
            ({
                let (public_bytes, private_bytes) = self.identity_store().local_key_pair();
                spec_decode_public(public_bytes) is None || private_bytes.len()
                    != PRIVATE_KEY_LENGTH
            }) ==> r is Err,
    {
        let (code, pair) = self.identity.get_identity_key_pair();
        if code != CODE_SUCCESS {
            return Err(error_of_code(code));
        }
        match pair {
            Some((public_bytes, private_bytes)) => {
                let public = match PublicKey::decode_point(public_bytes.as_slice()) {
                    Ok(k) => k,
                    Err(e) => {
                        return Err(e);
                    },
                };
                let private = match PrivateKey::decode_point(private_bytes.as_slice()) {
                    Ok(k) => k,
                    Err(e) => {
                        return Err(e);
                    },
                };
                Ok(KeyPair { public, private })
            },
            None => unreached(),
        }
    }

    /// The locally configured registration id.
    pub fn registration_id(&self) -> (r: Result<u32, SignalError>)
        ensures
            r matches Ok(id) ==> id == self.identity_store().local_id(),
    {
        let (code, id) = self.identity.get_local_registration_id();
        if code != CODE_SUCCESS {
            return Err(error_of_code(code));
        }
        match id {
            Some(id) => Ok(id),
            None => unreached(),
        }
    }

    /// Persist a pre-key record via the underlying store.
    pub fn store_pre_key(&mut self, pre_key: &PreKeyRecord) -> (r: Result<(), SignalError>)
        ensures
            r is Ok ==> final(self).pre_key_store().pre_keys() == old(
                self,
            ).pre_key_store().pre_keys().insert(pre_key.id, pre_key.body@),
            final(self).identity_store() == old(self).identity_store(),
            final(self).signed_pre_key_store() == old(self).signed_pre_key_store(),
            final(self).session_store() == old(self).session_store(),
    {
        let code = self.pre_keys.store_pre_key(pre_key.id, pre_key.body.as_slice());
        if code == CODE_SUCCESS {
            Ok(())
        } else {
            Err(error_of_code(code))
        }
    }

    /// Persist a signed pre-key record via the underlying store.
    pub fn store_signed_pre_key(&mut self, signed_pre_key: &SignedPreKeyRecord) -> (r: Result<
        (),
        SignalError,
    >)
        ensures
            r is Ok ==> final(self).signed_pre_key_store().signed_pre_keys() == old(
                self,
            ).signed_pre_key_store().signed_pre_keys().insert(
                signed_pre_key.id,
                signed_pre_key.body@,
            ),
            final(self).identity_store() == old(self).identity_store(),
            final(self).pre_key_store() == old(self).pre_key_store(),
            final(self).session_store() == old(self).session_store(),
    {
        let code = self.signed_pre_keys.store_signed_pre_key(
            signed_pre_key.id,
            signed_pre_key.body.as_slice(),
        );
        if code == CODE_SUCCESS {
            Ok(())
        } else {
            Err(error_of_code(code))
        }
    }

    /// Does this store already contain a session with the provided
    /// recipient?
    pub fn contains_session(&self, address: &Address) -> (r: Result<bool, SignalError>)
        ensures
            r matches Ok(b) ==> b == self.session_store().sessions().contains_key(address@),
    {
        let code = self.sessions.contains_session(address);
        if code == CODE_SUCCESS {
            Ok(true)
        } else if code == CODE_FALSE {
            Ok(false)
        } else {
            Err(error_of_code(code))
        }
    }

    /// The saved public identity key for a remote client, or `None` when
    /// no record exists — absence is distinguished from failure.
    pub fn get_identity(&self, address: &Address) -> (r: Result<Option<Vec<u8>>, SignalError>)
        ensures
            r matches Ok(opt) ==> match opt {
                Some(key) => self.identity_store().identities().contains_key(address@) && key@
                    == self.identity_store().identities()[address@],
                None => !self.identity_store().identities().contains_key(address@),
            },
    {
        let (code, key) = self.identity.get_identity(address);
        if code == CODE_SUCCESS {
            match key {
                Some(key) => Ok(Some(key)),
                None => unreached(),
            }
        } else if code == CODE_FALSE {
            Ok(None)
        } else {
            Err(error_of_code(code))
        }
    }

    /// Load the session corresponding to the provided recipient: the
    /// stored record when one exists, else a fresh, empty record — a
    /// caller can always begin a handshake from the returned value.
    pub fn load_session(&self, address: &Address) -> (r: Result<SessionRecord, SignalError>)
        ensures
            r matches Ok(record) ==> record@ == (if self.session_store().sessions().contains_key(
                address@,
            ) {
                self.session_store().sessions()[address@]
            } else {
                Seq::<u8>::empty()
            }),
    {
        let (code, session) = self.sessions.load_session(address);
        if code == CODE_SUCCESS {
            match session {
                Some(bytes) => Ok(SessionRecord::from_bytes(bytes.as_slice())),
                None => unreached(),
            }
        } else if code == CODE_FALSE {
            Ok(SessionRecord::fresh())
        } else {
            Err(error_of_code(code))
        }
    }

    /// The sub-device session ids recorded under the provided recipient
    /// identifier: exactly the devices with a session, each listed once,
    /// in store-defined order.
    pub fn get_sub_device_sessions(&self, identifier: &[u8]) -> (r: Result<Vec<i32>, SignalError>)
        ensures
            r matches Ok(ids) ==> (forall|d: i32|
                ids@.contains(d) <==> self.session_store().sessions().contains_key(
                    (identifier@, d),
                )),
            r matches Ok(ids) ==> (forall|i: int, j: int|
                0 <= i < j < ids@.len() ==> ids@[i] != ids@[j]),
    {
        let (code, ids) = self.sessions.get_sub_device_sessions(identifier);
        if code == CODE_SUCCESS {
            match ids {
                Some(ids) => Ok(ids),
                None => unreached(),
            }
        } else {
            Err(error_of_code(code))
        }
    }

    /// Delete an existing session corresponding to the provided address.
    pub fn delete_session(&mut self, address: &Address) -> (r: Result<(), SignalError>)
        ensures
            r is Ok ==> final(self).session_store().sessions() == old(
                self,
            ).session_store().sessions().remove(address@),
            final(self).identity_store() == old(self).identity_store(),
            final(self).pre_key_store() == old(self).pre_key_store(),
            final(self).signed_pre_key_store() == old(self).signed_pre_key_store(),
    {
        let code = self.sessions.delete_session(address);
        if code == CODE_SUCCESS {
            Ok(())
        } else {
            Err(error_of_code(code))
        }
    }
}

} // verus!
