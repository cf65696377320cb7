//! The records this layer persists without inspecting them: pre-keys,
//! signed pre-keys and sessions. Each body is an opaque byte string whose
//! framing is owned by the protocol engine; this layer only carries it.

use vstd::prelude::*;

verus! {

/// A one-time pre-key: an id together with an opaque serialized body.
pub struct PreKeyRecord {
    /// The pre-key's id.
    pub id: u32,
    /// The opaque serialized body, framed by the engine.
    pub body: Vec<u8>,
}

/// A signed pre-key: an id together with an opaque serialized body that
/// carries the signature and timestamp inside the engine's framing.
pub struct SignedPreKeyRecord {
    /// The signed pre-key's id.
    pub id: u32,
    /// The opaque serialized body, framed by the engine.
    pub body: Vec<u8>,
}

/// Opaque serialized session state for one remote device. A fresh record
/// holds no bytes; every state transition inside it belongs to the engine.
pub struct SessionRecord {
    data: Vec<u8>,
}

impl View for SessionRecord {
    type V = Seq<u8>;

    closed spec fn view(&self) -> Seq<u8> {
        self.data@
    }
}

impl SessionRecord {
    /// A fresh, empty session record: the state a handshake starts from.
    pub fn fresh() -> (r: SessionRecord)
        ensures
            r@ == Seq::<u8>::empty(),
    {
        SessionRecord { data: Vec::new() }
    }

    /// Wrap serialized session state handed back by a store.
    pub fn from_bytes(bytes: &[u8]) -> (r: SessionRecord)
        ensures
            r@ == bytes@,
    {
        SessionRecord { data: vstd::slice::slice_to_vec(bytes) }
    }

    /// The serialized session state.
    pub fn serialize(&self) -> (r: Vec<u8>)
        ensures
            r@ == self@,
    {
        vstd::slice::slice_to_vec(self.data.as_slice())
    }

    /// Is this the fresh, empty record?
    pub fn is_fresh(&self) -> (r: bool)
        ensures
            r == (self@.len() == 0),
    {
        self.data.len() == 0
    }
}

} // verus!
