//! The engine's cryptographic and text-encoding primitives.
//!
//! Curve arithmetic, signature checking and base64 text encoding are owned
//! by outside crates. Each is reached through exactly one trusted wrapper
//! here; what a wrapper returns is given a name (an uninterpreted spec
//! function of the arguments), and everything the rest of the crate proves
//! about key material speaks over those names.

use vstd::prelude::*;

verus! {

/// The result of clamped scalar multiplication on the engine's Montgomery
/// curve, as a function of the 32-byte scalar and the 32-byte point.
pub uninterp spec fn x25519_of(scalar: Seq<u8>, point: Seq<u8>) -> Seq<u8>;

/// The outcome of checking a 64-byte signature over a message against a
/// 32-byte verification key: `None` when the key bytes decode to no curve
/// point, otherwise `Some` of the verdict.
pub uninterp spec fn signature_check(key: Seq<u8>, message: Seq<u8>, signature: Seq<u8>) -> Option<
    bool,
>;

/// The padded, standard-alphabet base64 text encoding of a byte string.
pub uninterp spec fn base64_of(data: Seq<u8>) -> Seq<char>;

/// The canonical 32-byte encoding of the curve's base point.
pub open spec fn spec_base_point() -> Seq<u8> {
    Seq::new(32, |i: int| if i == 0 { 9u8 } else { 0u8 })
}

/// The serialized public counterpart of a 32-byte private scalar: the
/// scalar multiple of the base point.
pub open spec fn spec_derive_public(scalar: Seq<u8>) -> Seq<u8> {
    x25519_of(scalar, spec_base_point())
}

/// Clamped scalar multiplication on the engine's curve.
///
/// Relies on `x25519_dalek::x25519`: Montgomery scalar multiplication with
/// the standard clamping, a pure function of its two 32-byte arguments
/// that returns a 32-byte point encoding and never panics.
#[verifier::external_body]
pub(crate) fn curve_mult(scalar: &[u8], point: &[u8]) -> (r: Vec<u8>)
    requires
        scalar@.len() == 32,
        point@.len() == 32,
    ensures
        r@ == x25519_of(scalar@, point@),
        r@.len() == 32,
{
    let mut s = [0u8; 32];
    s.copy_from_slice(scalar);
    let mut p = [0u8; 32];
    p.copy_from_slice(point);
    x25519_dalek::x25519(s, p).to_vec()
}

/// Check a signature over a message against a verification key.
///
/// Relies on `ed25519_dalek::VerifyingKey::from_bytes` (an `Err` exactly
/// when the 32 key bytes decompress to no curve point),
/// `ed25519_dalek::Signature::from_bytes` (infallible on 64 bytes), and
/// `ed25519_dalek::VerifyingKey::verify_strict` (`Ok` exactly when the
/// signature verifies under the strict rules): all pure functions of the
/// bytes, none of which panics.
#[verifier::external_body]
pub(crate) fn curve_verify(key: &[u8], message: &[u8], signature: &[u8]) -> (r: Option<bool>)
    requires
        key@.len() == 32,
        signature@.len() == 64,
    ensures
        r == signature_check(key@, message@, signature@),
{
    let mut k = [0u8; 32];
    k.copy_from_slice(key);
    let mut s = [0u8; 64];
    s.copy_from_slice(signature);
    match ed25519_dalek::VerifyingKey::from_bytes(&k) {
        Err(_) => None,
        Ok(vk) => {
            let sig = ed25519_dalek::Signature::from_bytes(&s);
            Some(vk.verify_strict(message, &sig).is_ok())
        },
    }
}

/// Encode a byte string as base64 text.
///
/// Relies on `base64::engine::general_purpose::STANDARD` and the
/// `base64::Engine::encode` method: the padded standard-alphabet encoding,
/// a pure function of the input whose text length is four characters for
/// every started group of three input bytes, and which never panics.
#[verifier::external_body]
pub(crate) fn b64_encode(data: &[u8]) -> (r: String)
    ensures
        r@ == base64_of(data@),
        r@.len() == 4 * ((data@.len() + 2) / 3),
{
    base64::Engine::encode(&base64::engine::general_purpose::STANDARD, data)
}

/// The canonical base point encoding, as bytes.
pub(crate) fn base_point() -> (r: Vec<u8>)
    ensures
        r@ == spec_base_point(),
{
    let mut r: Vec<u8> = Vec::new();
    r.push(9);
    let mut i: usize = 1;
    while i < 32
        invariant
            1 <= i <= 32,
            r@.len() == i,
            r@[0] == 9u8,
            forall|j: int| 1 <= j < i ==> r@[j] == 0u8,
        decreases 32 - i,
    {
        r.push(0);
        i = i + 1;
    }
    proof {
        assert(r@ =~= spec_base_point());
    }
    r
}

} // verus!
