//! The capability traits through which an application supplies durable
//! storage and trust decisions.
//!
//! Each trait models its persisted state as a map in an abstract spec
//! function; every method's contract speaks over that map. An
//! implementation may fail (a broken backend degrades every operation to
//! an error, never a crash), but whatever it returns must be faithful to
//! its own map: the contracts bind the success cases exactly.

use vstd::prelude::*;
use crate::address::Address;
use crate::error::SignalError;

verus! {

/// Trust on first use, over the recorded identities: a presented key is
/// trusted when no identity is on record for the address, or when it is
/// byte-identical to the recorded one.
pub open spec fn spec_trusted(
    identities: Map<(Seq<u8>, i32), Seq<u8>>,
    address: (Seq<u8>, i32),
    key: Seq<u8>,
) -> bool {
    !identities.contains_key(address) || identities[address] == key
}

/// Trust-on-first-use, stated as the two laws the check obeys: with no
/// identity on record any key is trusted; with one on record exactly the
/// recorded key is trusted and every other key is untrusted.
pub proof fn lemma_trust_on_first_use(
    identities: Map<(Seq<u8>, i32), Seq<u8>>,
    address: (Seq<u8>, i32),
    key: Seq<u8>,
)
    ensures
        !identities.contains_key(address) ==> spec_trusted(identities, address, key),
        identities.contains_key(address) ==> (spec_trusted(identities, address, key)
            <==> identities[address] == key),
{
}

/// Something used to store identity keys and track trusted identities.
pub trait IdentityKeyStore {
    /// The recorded remote identity keys, by device address.
    spec fn identities(&self) -> Map<(Seq<u8>, i32), Seq<u8>>;

    /// Non-key metadata the store keeps alongside recorded identities;
    /// what it holds is store-defined.
    spec fn metadata(&self) -> Map<(Seq<u8>, i32), Seq<u8>>;

    /// The local client's identity key pair, as the serialized public
    /// form and the serialized private scalar.
    spec fn local_key_pair(&self) -> (Seq<u8>, Seq<u8>);

    /// The locally configured registration id.
    spec fn local_id(&self) -> u32;

    /// Get the local client's identity key pair as the serialized tuple
    /// `(public, private)`.
    fn identity_key_pair(&self) -> (r: Result<(Vec<u8>, Vec<u8>), SignalError>)
        ensures
            r matches Ok(kp) ==> (kp.0@, kp.1@) == self.local_key_pair(),
    ;

    /// Get the local client's registration ID.
    fn local_registration_id(&self) -> (r: Result<u32, SignalError>)
        ensures
            r matches Ok(id) ==> id == self.local_id(),
    ;

    /// Verify a remote client's identity key, by trust on first use: an
    /// identity is trusted if there is no entry for the address in the
    /// store, or if it matches the entry; only a mismatch is untrusted.
    fn is_trusted_identity(&self, address: &Address, identity_key: &[u8]) -> (r: Result<
        bool,
        SignalError,
    >)
        ensures
            r matches Ok(b) ==> b == spec_trusted(self.identities(), address@, identity_key@),
    ;

    /// Get a remote client's recorded identity, or `None` when there is
    /// no record — absence is a normal outcome, not a failure.
    fn get_identity(&self, address: &Address) -> (r: Result<Option<Vec<u8>>, SignalError>)
        ensures
            r matches Ok(opt) ==> match opt {
                Some(key) => self.identities().contains_key(address@) && key@
                    == self.identities()[address@],
                None => !self.identities().contains_key(address@),
            },
    ;

    /// Save a remote client's identity key as trusted. An empty key means
    /// "remove the recorded key data": the entry's key is dropped while
    /// any metadata kept alongside it is retained.
    fn save_identity(&mut self, address: &Address, identity_key: &[u8]) -> (r: Result<
        (),
        SignalError,
    >)
        ensures
            r is Ok ==> final(self).identities() == (if identity_key@.len() == 0 {
                old(self).identities().remove(address@)
            } else {
                old(self).identities().insert(address@, identity_key@)
            }),
            r is Ok ==> final(self).metadata() == old(self).metadata(),
            r is Ok ==> final(self).local_key_pair() == old(self).local_key_pair(),
            r is Ok ==> final(self).local_id() == old(self).local_id(),
    ;
}

/// Something which can store pre-keys without inspecting their contents.
pub trait PreKeyStore {
    /// The stored pre-key bodies, by id.
    spec fn pre_keys(&self) -> Map<u32, Seq<u8>>;

    /// Load a pre-key body. Absence is a failure here: a store must not
    /// fabricate a record for an id it does not hold.
    fn load(&self, id: u32) -> (r: Result<Vec<u8>, SignalError>)
        ensures
            r matches Ok(body) ==> self.pre_keys().contains_key(id) && body@ == self.pre_keys()[id],
            !self.pre_keys().contains_key(id) ==> r is Err,
    ;

    /// Store a pre-key body under an id, overwriting any present one.
    fn store(&mut self, id: u32, body: &[u8]) -> (r: Result<(), SignalError>)
        ensures
            r is Ok ==> final(self).pre_keys() == old(self).pre_keys().insert(id, body@),
    ;

    /// Is a pre-key with this id present? Observational and infallible.
    fn contains(&self, id: u32) -> (r: bool)
        ensures
            r == self.pre_keys().contains_key(id),
    ;

    /// Remove the pre-key with an id.
    fn remove(&mut self, id: u32) -> (r: Result<(), SignalError>)
        ensures
            r is Ok ==> final(self).pre_keys() == old(self).pre_keys().remove(id),
    ;
}

/// Something which can store signed pre-keys without inspecting their
/// contents.
pub trait SignedPreKeyStore {
    /// The stored signed pre-key bodies, by id.
    spec fn signed_pre_keys(&self) -> Map<u32, Seq<u8>>;

    /// Load a signed pre-key body; absence is a failure.
    fn load(&self, id: u32) -> (r: Result<Vec<u8>, SignalError>)
        ensures
            r matches Ok(body) ==> self.signed_pre_keys().contains_key(id) && body@
                == self.signed_pre_keys()[id],
            !self.signed_pre_keys().contains_key(id) ==> r is Err,
    ;

    /// Store a signed pre-key body under an id, overwriting any present
    /// one.
    fn store(&mut self, id: u32, body: &[u8]) -> (r: Result<(), SignalError>)
        ensures
            r is Ok ==> final(self).signed_pre_keys() == old(self).signed_pre_keys().insert(
                id,
                body@,
            ),
    ;

    /// Is a signed pre-key with this id present?
    fn contains(&self, id: u32) -> (r: bool)
        ensures
            r == self.signed_pre_keys().contains_key(id),
    ;

    /// Remove the signed pre-key with an id.
    fn remove(&mut self, id: u32) -> (r: Result<(), SignalError>)
        ensures
            r is Ok ==> final(self).signed_pre_keys() == old(self).signed_pre_keys().remove(id),
    ;
}

/// Something which can store serialized session state by device address.
pub trait SessionStore {
    /// The stored serialized sessions, by device address.
    spec fn sessions(&self) -> Map<(Seq<u8>, i32), Seq<u8>>;

    /// Load the session for an address, or `None` when there is none —
    /// absence is a normal outcome, not a failure.
    fn load_session(&self, address: &Address) -> (r: Result<Option<Vec<u8>>, SignalError>)
        ensures
            r matches Ok(opt) ==> match opt {
                Some(s) => self.sessions().contains_key(address@) && s@ == self.sessions()[address@],
                None => !self.sessions().contains_key(address@),
            },
    ;

    /// Store serialized session state for an address, overwriting any
    /// present state.
    fn store_session(&mut self, address: &Address, record: &[u8]) -> (r: Result<(), SignalError>)
        ensures
            r is Ok ==> final(self).sessions() == old(self).sessions().insert(address@, record@),
    ;

    /// Is a session present for an address?
    fn contains_session(&self, address: &Address) -> (r: Result<bool, SignalError>)
        ensures
            r matches Ok(b) ==> b == self.sessions().contains_key(address@),
    ;

    /// Delete the session for an address.
    fn delete_session(&mut self, address: &Address) -> (r: Result<(), SignalError>)
        ensures
            r is Ok ==> final(self).sessions() == old(self).sessions().remove(address@),
    ;

    /// The device ids of every session recorded under one name. The order
    /// is store-defined; the ids are exactly those with a session, each
    /// listed once.
    fn sub_device_sessions(&self, name: &[u8]) -> (r: Result<Vec<i32>, SignalError>)
        ensures
            r matches Ok(ids) ==> (forall|d: i32|
                ids@.contains(d) <==> self.sessions().contains_key((name@, d))),
            r matches Ok(ids) ==> (forall|i: int, j: int|
                0 <= i < j < ids@.len() ==> ids@[i] != ids@[j]),
    ;
}

} // verus!
