//! The address of one remote client device: a name (an opaque byte string)
//! together with a 32-bit device id. Addresses key identity and session
//! lookups, and carry a byte-exact wire form: a little-endian 4-byte length
//! prefix, the name bytes, then the device id as 4 little-endian bytes.

use vstd::prelude::*;
use vstd::bytes::{
    lemma_auto_spec_u32_to_from_le_bytes,
    spec_u32_from_le_bytes,
    spec_u32_to_le_bytes,
    u32_from_le_bytes,
    u32_to_le_bytes,
};
use crate::bytecmp::bytes_eq;
use crate::error::SignalError;

verus! {

/// The longest name the wire form can carry: its length prefix is 32 bits.
pub const MAX_ADDRESS_NAME_LENGTH: usize = 0xFFFF_FFFF;

/// Identifies one remote client device.
pub struct Address {
    name: Vec<u8>,
    device_id: i32,
}

impl View for Address {
    type V = (Seq<u8>, i32);

    closed spec fn view(&self) -> (Seq<u8>, i32) {
        (self.name@, self.device_id)
    }
}

/// The wire form of an address: length-prefixed name bytes, then the
/// device id as four little-endian bytes of its 32-bit representation.
pub open spec fn spec_encode_address(name: Seq<u8>, device_id: i32) -> Seq<u8> {
    spec_u32_to_le_bytes(name.len() as u32) + name + spec_u32_to_le_bytes(device_id as u32)
}

/// The address that a byte string decodes to: defined exactly on strings
/// whose length-prefix, name and device id account for every byte.
pub open spec fn spec_decode_address(bytes: Seq<u8>) -> Option<(Seq<u8>, i32)> {
    if bytes.len() < 8 {
        None
    } else {
        let n = spec_u32_from_le_bytes(bytes.subrange(0, 4)) as int;
        if bytes.len() == 8 + n {
            Some(
                (
                    bytes.subrange(4, 4 + n),
                    spec_u32_from_le_bytes(bytes.subrange(4 + n, 8 + n)) as i32,
                ),
            )
        } else {
            None
        }
    }
}

impl Address {
    #[verifier::type_invariant]
    spec fn wf(self) -> bool {
        self.name@.len() <= MAX_ADDRESS_NAME_LENGTH
    }

    /// Build an address from a device's name and id.
    pub fn new(name: Vec<u8>, device_id: i32) -> (r: Address)
        requires
            name@.len() <= MAX_ADDRESS_NAME_LENGTH,
        ensures
            r@ == (name@, device_id),
    {
        Address { name, device_id }
    }

    /// The device's name bytes.
    pub fn name(&self) -> (r: &[u8])
        ensures
            r@ == self@.0,
    {
        self.name.as_slice()
    }

    /// The device's id.
    pub fn device_id(&self) -> (r: i32)
        ensures
            r == self@.1,
    {
        self.device_id
    }

    /// An owned copy of this address.
    pub fn duplicate(&self) -> (r: Address)
        ensures
            r@ == self@,
    {
        proof {
            use_type_invariant(self);
        }
        Address { name: vstd::slice::slice_to_vec(self.name.as_slice()), device_id: self.device_id }
    }

    /// Do two addresses name the same device?
    pub fn matches(&self, other: &Address) -> (r: bool)
        ensures
            r == (self@ == other@),
    {
        let r = self.device_id == other.device_id && bytes_eq(
            self.name.as_slice(),
            other.name.as_slice(),
        );
        proof {
            if self@.0 == other@.0 && self@.1 == other@.1 {
                assert(self@ == other@);
            }
        }
        r
    }

    /// Serialize this address to its wire form.
    pub fn encode(&self) -> (r: Vec<u8>)
        ensures
            r@ == spec_encode_address(self@.0, self@.1),
    {
        proof {
            use_type_invariant(self);
        }
        let mut out = u32_to_le_bytes(self.name.len() as u32);
        let mut name_bytes = vstd::slice::slice_to_vec(self.name.as_slice());
        out.append(&mut name_bytes);
        let mut id_bytes = u32_to_le_bytes(self.device_id as u32);
        out.append(&mut id_bytes);
        proof {
            assert(out@ =~= spec_encode_address(self@.0, self@.1));
        }
        out
    }

    /// Decode an address from its wire form; rejects every byte string the
    /// wire form does not account for exactly.
    pub fn decode(bytes: &[u8]) -> (r: Result<Address, SignalError>)
        ensures
            match spec_decode_address(bytes@) {
                Some(v) => r matches Ok(a) && a@ == v,
                None => r == Err::<Address, SignalError>(SignalError::InvalidKey),
            },
    {
        if bytes.len() < 8 {
            return Err(SignalError::InvalidKey);
        }
        let prefix = vstd::slice::slice_subrange(bytes, 0, 4);
        proof {
            assert(prefix@ =~= bytes@.subrange(0, 4));
        }
        let n = u32_from_le_bytes(prefix);
        if n as usize != bytes.len() - 8 {
            return Err(SignalError::InvalidKey);
        }
        let name_slice = vstd::slice::slice_subrange(bytes, 4, 4 + n as usize);
        let id_slice = vstd::slice::slice_subrange(bytes, 4 + n as usize, 8 + n as usize);
        proof {
            assert(name_slice@ =~= bytes@.subrange(4, 4 + n as int));
            assert(id_slice@ =~= bytes@.subrange(4 + n as int, 8 + n as int));
        }
        let device_id = u32_from_le_bytes(id_slice) as i32;
        Ok(Address { name: vstd::slice::slice_to_vec(name_slice), device_id })
    }
}

/// Round trip one way: the wire form of any address decodes back to
/// exactly that address.
pub proof fn lemma_address_round_trip(name: Seq<u8>, device_id: i32)
    requires
        name.len() <= MAX_ADDRESS_NAME_LENGTH,
    ensures
        spec_decode_address(spec_encode_address(name, device_id)) == Some((name, device_id)),
{
    lemma_auto_spec_u32_to_from_le_bytes();
    let enc = spec_encode_address(name, device_id);
    assert(enc.subrange(0, 4) =~= spec_u32_to_le_bytes(name.len() as u32));
    assert(enc.subrange(4, 4 + name.len() as int) =~= name);
    assert(enc.subrange(4 + name.len() as int, 8 + name.len() as int) =~= spec_u32_to_le_bytes(
        device_id as u32,
    ));
    assert((device_id as u32) as i32 == device_id) by (bit_vector);
}

/// Round trip the other way: any byte string that decodes as an address
/// re-encodes to exactly that byte string.
pub proof fn lemma_address_encode_of_decode(bytes: Seq<u8>)
    requires
        spec_decode_address(bytes) is Some,
    ensures
        ({
            let (name, device_id) = spec_decode_address(bytes).unwrap();
            spec_encode_address(name, device_id) == bytes
        }),
{
    lemma_auto_spec_u32_to_from_le_bytes();
    let (name, device_id) = spec_decode_address(bytes).unwrap();
    let n = spec_u32_from_le_bytes(bytes.subrange(0, 4)) as int;
    assert(name.len() == n);
    let id32 = spec_u32_from_le_bytes(bytes.subrange(4 + n, 8 + n));
    assert((id32 as i32) as u32 == id32) by (bit_vector);
    assert(spec_u32_to_le_bytes(name.len() as u32) =~= bytes.subrange(0, 4));
    assert(spec_encode_address(name, device_id) =~= bytes);
}

} // verus!
