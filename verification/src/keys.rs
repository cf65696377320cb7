//! Canonical representation, ordering and serialization of asymmetric key
//! material.
//!
//! A private key is an opaque 32-byte scalar; a public key is an opaque
//! 32-byte curve point, canonically serialized as a one-byte type marker
//! followed by the point (33 bytes). Keys are ordered by the lexicographic
//! order of their canonical serialized bytes, and equality is exactly
//! "compares as Equal".

use vstd::prelude::*;
use core::cmp::Ordering;
use crate::bytecmp::{
    all_zero,
    bytes_eq,
    compare_bytes,
    is_all_zero,
    lex_cmp,
    lemma_lex_cmp_range,
    lemma_lex_cmp_transitive,
    lemma_lex_cmp_trichotomy,
    lemma_lex_cmp_zero_iff_eq,
    spec_ordering_of,
};
use crate::engine::{
    b64_encode,
    base64_of,
    base_point,
    curve_mult,
    curve_verify,
    signature_check,
    spec_derive_public,
    x25519_of,
};
use crate::error::SignalError;
use vstd::std_specs::cmp::{PartialEqSpec, PartialOrdSpec};

verus! {

/// The type marker that opens the canonical serialized form of a public key.
pub const KEY_TYPE_MARKER: u8 = 5;

/// The length of a serialized private key: the raw 32-byte scalar.
pub const PRIVATE_KEY_LENGTH: usize = 32;

/// The length of a serialized public key: marker plus 32-byte point.
pub const PUBLIC_KEY_LENGTH: usize = 33;

/// The private half of an elliptic curve key pair: a 32-byte scalar.
pub struct PrivateKey {
    scalar: Vec<u8>,
}

/// The public half of an elliptic curve key pair: a 32-byte curve point.
pub struct PublicKey {
    point: Vec<u8>,
}

/// A logical pairing of a private key with its public counterpart.
pub struct KeyPair {
    /// The public half.
    pub public: PublicKey,
    /// The private half.
    pub private: PrivateKey,
}

impl View for PrivateKey {
    type V = Seq<u8>;

    closed spec fn view(&self) -> Seq<u8> {
        self.scalar@
    }
}

impl View for PublicKey {
    type V = Seq<u8>;

    closed spec fn view(&self) -> Seq<u8> {
        self.point@
    }
}

/// The canonical serialized form of a public key whose point bytes are
/// given: the type marker followed by the point.
pub open spec fn spec_serialize_public(point: Seq<u8>) -> Seq<u8> {
    seq![KEY_TYPE_MARKER].add(point)
}

/// The point bytes that a byte string decodes to as a public key: defined
/// exactly on strings of 33 bytes that open with the type marker.
pub open spec fn spec_decode_public(bytes: Seq<u8>) -> Option<Seq<u8>> {
    if bytes.len() == PUBLIC_KEY_LENGTH && bytes[0] == KEY_TYPE_MARKER {
        Some(bytes.subrange(1, PUBLIC_KEY_LENGTH as int))
    } else {
        None
    }
}

impl PrivateKey {
    #[verifier::type_invariant]
    spec fn wf(self) -> bool {
        self.scalar@.len() == PRIVATE_KEY_LENGTH
    }

    /// Decode a private key from raw key data: accepts exactly the
    /// 32-byte scalars and rejects every other length as an invalid key.
    pub fn decode_point(key: &[u8]) -> (r: Result<PrivateKey, SignalError>)
        ensures
            key@.len() == PRIVATE_KEY_LENGTH ==> (r matches Ok(k) && k@ == key@),
            key@.len() != PRIVATE_KEY_LENGTH ==> r == Err::<PrivateKey, SignalError>(
                SignalError::InvalidKey,
            ),
    {
        if key.len() == PRIVATE_KEY_LENGTH {
            Ok(PrivateKey { scalar: vstd::slice::slice_to_vec(key) })
        } else {
            Err(SignalError::InvalidKey)
        }
    }

    /// The canonical serialized form: the raw 32-byte scalar.
    pub fn serialize(&self) -> (r: Vec<u8>)
        ensures
            r@ == self@,
    {
        vstd::slice::slice_to_vec(self.scalar.as_slice())
    }

    /// Derive the public part of this key pair: the scalar multiple of the
    /// base point. The derivation is total, and deterministic in the
    /// scalar bytes alone.
    pub fn generate_public_key(&self) -> (r: Result<PublicKey, SignalError>)
        ensures
            r matches Ok(pk) && pk@ == spec_derive_public(self@),
    {
        proof {
            use_type_invariant(self);
        }
        let bp = base_point();
        let point = curve_mult(self.scalar.as_slice(), bp.as_slice());
        Ok(PublicKey { point })
    }

    /// This private key as base64 text of its serialized bytes.
    pub fn as_base64(&self) -> (r: Result<String, SignalError>)
        ensures
            r matches Ok(s) && s@ == base64_of(self@),
    {
        Ok(b64_encode(self.scalar.as_slice()))
    }

    /// Canonical three-way comparison, over the serialized scalar bytes.
    pub fn cmp_keys(&self, other: &PrivateKey) -> (o: Ordering)
        ensures
            o == spec_ordering_of(lex_cmp(self@, other@)),
    {
        compare_bytes(self.scalar.as_slice(), other.scalar.as_slice())
    }
}

impl PublicKey {
    #[verifier::type_invariant]
    spec fn wf(self) -> bool {
        self.point@.len() == 32
    }

    /// Decode a public key from its canonical serialized form: accepts
    /// exactly the 33-byte strings that open with the type marker, and
    /// rejects anything else as an invalid key.
    pub fn decode_point(key: &[u8]) -> (r: Result<PublicKey, SignalError>)
        ensures
            match spec_decode_public(key@) {
                Some(point) => r matches Ok(k) && k@ == point,
                None => r == Err::<PublicKey, SignalError>(SignalError::InvalidKey),
            },
    {
        if key.len() == PUBLIC_KEY_LENGTH && key[0] == KEY_TYPE_MARKER {
            let point = vstd::slice::slice_subrange(key, 1, PUBLIC_KEY_LENGTH);
            Ok(PublicKey { point: vstd::slice::slice_to_vec(point) })
        } else {
            Err(SignalError::InvalidKey)
        }
    }

    /// The canonical serialized form: the type marker followed by the
    /// 32 point bytes.
    pub fn serialize(&self) -> (r: Vec<u8>)
        ensures
            r@ == spec_serialize_public(self@),
    {
        let mut out = vstd::slice::slice_to_vec(self.point.as_slice());
        out.insert(0, KEY_TYPE_MARKER);
        proof {
            assert(out@ =~= spec_serialize_public(self@));
        }
        out
    }

    /// This public key as base64 text of its serialized bytes.
    pub fn as_base64(&self) -> (r: Result<String, SignalError>)
        ensures
            r matches Ok(s) && s@ == base64_of(spec_serialize_public(self@)),
    {
        let ser = self.serialize();
        Ok(b64_encode(ser.as_slice()))
    }

    /// Use this public key to check whether a message matches a signature.
    ///
    /// The three outcomes stay distinguishable: `Ok(())` for a valid
    /// signature, `InvalidSignature` for one that was checked and
    /// rejected, and `UnknownEngineError` for a computation failure (a
    /// signature of the wrong length, or key bytes that decode to no
    /// curve point).
    pub fn verify_signature(&self, message: &[u8], signature: &[u8]) -> (r: Result<
        (),
        SignalError,
    >)
        ensures
            signature@.len() != 64 ==> r == Err::<(), SignalError>(SignalError::UnknownEngineError),
            signature@.len() == 64 ==> match signature_check(self@, message@, signature@) {
                Some(true) => r == Ok::<(), SignalError>(()),
                Some(false) => r == Err::<(), SignalError>(SignalError::InvalidSignature),
                None => r == Err::<(), SignalError>(SignalError::UnknownEngineError),
            },
    {
        proof {
            use_type_invariant(self);
        }
        if signature.len() != 64 {
            return Err(SignalError::UnknownEngineError);
        }
        match curve_verify(self.point.as_slice(), message, signature) {
            Some(true) => Ok(()),
            Some(false) => Err(SignalError::InvalidSignature),
            None => Err(SignalError::UnknownEngineError),
        }
    }

    /// Compute the shared secret between this public key and a private
    /// key. Fails exactly on degenerate input — when the curve computation
    /// yields the all-zero point — and never returns an empty secret.
    pub fn calculate_agreement(&self, private_key: &PrivateKey) -> (r: Result<Vec<u8>, SignalError>)
        ensures
            ({
                let secret = x25519_of(private_key@, self@);
                if all_zero(secret) {
                    r == Err::<Vec<u8>, SignalError>(SignalError::AgreementFailure)
                } else {
                    r matches Ok(s) && s@ == secret && s@.len() == 32
                }
            }),
    {
        proof {
            use_type_invariant(self);
            use_type_invariant(private_key);
        }
        let secret = curve_mult(private_key.serialize().as_slice(), self.point.as_slice());
        if is_all_zero(secret.as_slice()) {
            Err(SignalError::AgreementFailure)
        } else {
            Ok(secret)
        }
    }

    /// Canonical three-way comparison, over the serialized forms.
    pub fn cmp_keys(&self, other: &PublicKey) -> (o: Ordering)
        ensures
            o == spec_ordering_of(
                lex_cmp(spec_serialize_public(self@), spec_serialize_public(other@)),
            ),
    {
        let sa = self.serialize();
        let sb = other.serialize();
        compare_bytes(sa.as_slice(), sb.as_slice())
    }
}

impl KeyPair {
    /// Pair a private key with its derived public counterpart.
    pub fn from_private(private: PrivateKey) -> (r: KeyPair)
        ensures
            r.private == private,
            r.public@ == spec_derive_public(private@),
    {
        let public = match private.generate_public_key() {
            Ok(pk) => pk,
            Err(_) => unreached(),
        };
        KeyPair { public, private }
    }
}

impl PartialEq for PublicKey {
    fn eq(&self, other: &PublicKey) -> (r: bool) {
        bytes_eq(self.point.as_slice(), other.point.as_slice())
    }
}

impl vstd::std_specs::cmp::PartialEqSpecImpl for PublicKey {
    open spec fn obeys_eq_spec() -> bool {
        true
    }

    open spec fn eq_spec(&self, other: &PublicKey) -> bool {
        self@ == other@
    }
}

impl Eq for PublicKey {
}

impl PartialOrd for PublicKey {
    fn partial_cmp(&self, other: &PublicKey) -> (r: Option<Ordering>) {
        Some(self.cmp_keys(other))
    }
}

impl vstd::std_specs::cmp::PartialOrdSpecImpl for PublicKey {
    open spec fn obeys_partial_cmp_spec() -> bool {
        true
    }

    open spec fn partial_cmp_spec(&self, other: &PublicKey) -> Option<Ordering> {
        Some(
            spec_ordering_of(
                lex_cmp(spec_serialize_public(self@), spec_serialize_public(other@)),
            ),
        )
    }
}

impl PartialEq for PrivateKey {
    fn eq(&self, other: &PrivateKey) -> (r: bool) {
        bytes_eq(self.scalar.as_slice(), other.scalar.as_slice())
    }
}

impl vstd::std_specs::cmp::PartialEqSpecImpl for PrivateKey {
    open spec fn obeys_eq_spec() -> bool {
        true
    }

    open spec fn eq_spec(&self, other: &PrivateKey) -> bool {
        self@ == other@
    }
}

impl Eq for PrivateKey {
}

impl PartialOrd for PrivateKey {
    fn partial_cmp(&self, other: &PrivateKey) -> (r: Option<Ordering>) {
        Some(self.cmp_keys(other))
    }
}

impl vstd::std_specs::cmp::PartialOrdSpecImpl for PrivateKey {
    open spec fn obeys_partial_cmp_spec() -> bool {
        true
    }

    open spec fn partial_cmp_spec(&self, other: &PrivateKey) -> Option<Ordering> {
        Some(spec_ordering_of(lex_cmp(self@, other@)))
    }
}

/// Round trip one way: any byte string that decodes as a public key
/// serializes back to exactly that byte string.
pub proof fn lemma_public_key_round_trip(bytes: Seq<u8>)
    requires
        spec_decode_public(bytes) is Some,
    ensures
        spec_serialize_public(spec_decode_public(bytes).unwrap()) == bytes,
{
    assert(spec_serialize_public(spec_decode_public(bytes).unwrap()) =~= bytes);
}

/// Round trip the other way: the serialized form of any public key's
/// 32 point bytes decodes back to exactly those point bytes.
pub proof fn lemma_public_key_decode_of_serialize(point: Seq<u8>)
    requires
        point.len() == 32,
    ensures
        spec_decode_public(spec_serialize_public(point)) == Some(point),
{
    assert(spec_serialize_public(point)[0] == KEY_TYPE_MARKER);
    assert(spec_serialize_public(point).subrange(1, PUBLIC_KEY_LENGTH as int) =~= point);
}

/// Deriving the public key is deterministic: two public keys derived from
/// the same private scalar compare as Equal.
pub proof fn lemma_derivation_deterministic(a: PublicKey, b: PublicKey, scalar: Seq<u8>)
    requires
        a@ == spec_derive_public(scalar),
        b@ == spec_derive_public(scalar),
    ensures
        a.partial_cmp_spec(&b) == Some(Ordering::Equal),
{
    lemma_lex_cmp_zero_iff_eq(spec_serialize_public(a@), spec_serialize_public(b@));
}

/// Key equality is derived from the ordering: two public keys are equal
/// exactly when they compare as Equal.
pub proof fn lemma_key_equality_from_order(a: PublicKey, b: PublicKey)
    ensures
        a.eq_spec(&b) <==> a.partial_cmp_spec(&b) == Some(Ordering::Equal),
{
    lemma_lex_cmp_trichotomy(spec_serialize_public(a@), spec_serialize_public(b@));
    if a@ == b@ {
        assert(spec_serialize_public(a@) =~= spec_serialize_public(b@));
    }
    if spec_serialize_public(a@) == spec_serialize_public(b@) {
        assert(a@ =~= spec_serialize_public(a@).subrange(1, spec_serialize_public(a@).len() as int));
        assert(b@ =~= spec_serialize_public(b@).subrange(1, spec_serialize_public(b@).len() as int));
    }
}

/// The key order is total: for any two public keys the comparison is
/// defined, exactly one of Less, Equal, Greater holds, Equal coincides
/// with equality of the keys, and Less one way is Greater the other way.
pub proof fn lemma_key_order_trichotomy(a: PublicKey, b: PublicKey)
    ensures
        a.partial_cmp_spec(&b) is Some,
        (a.partial_cmp_spec(&b) == Some(Ordering::Equal)) <==> a@ == b@,
        (a.partial_cmp_spec(&b) == Some(Ordering::Less)) <==> (b.partial_cmp_spec(&a) == Some(
            Ordering::Greater,
        )),
{
    let sa = spec_serialize_public(a@);
    let sb = spec_serialize_public(b@);
    lemma_lex_cmp_trichotomy(sa, sb);
    lemma_lex_cmp_trichotomy(sb, sa);
    lemma_key_equality_from_order(a, b);
}

/// The key order is transitive.
pub proof fn lemma_key_order_transitive(a: PublicKey, b: PublicKey, c: PublicKey)
    requires
        a.partial_cmp_spec(&b) == Some(Ordering::Less),
        b.partial_cmp_spec(&c) == Some(Ordering::Less),
    ensures
        a.partial_cmp_spec(&c) == Some(Ordering::Less),
{
    let sa = spec_serialize_public(a@);
    let sb = spec_serialize_public(b@);
    let sc = spec_serialize_public(c@);
    lemma_lex_cmp_range(sa, sb);
    lemma_lex_cmp_range(sb, sc);
    lemma_lex_cmp_transitive(sa, sb, sc);
}

} // verus!
