//! Failure taxonomy of the layer, and the fixed table mapping each failure
//! kind to the integer status code spoken at the engine boundary.
//!
//! The boundary convention: `1` reports success (or "true" for boolean
//! queries), `0` reports "false / not trusted", and every failure kind is a
//! strictly negative code. A code outside the table reads back as
//! [`SignalError::UnknownEngineError`].

use vstd::prelude::*;

verus! {

/// The failure kinds surfaced by this layer.
#[derive(Clone, Copy, Debug, PartialEq, Eq, Structural)]
pub enum SignalError {
    /// Malformed input handed to a key decoder.
    InvalidKey,
    /// A signature that was checked and explicitly rejected.
    InvalidSignature,
    /// Degenerate input to the shared-secret computation.
    AgreementFailure,
    /// A store implementation reported a failure.
    StoreCallbackFailure,
    /// A record that the operation needs is absent.
    NotFound,
    /// A status code outside the fixed table, or a computation failure
    /// inside the engine's primitives.
    UnknownEngineError,
}

/// Status code reporting success, or "true" for boolean queries.
pub const CODE_SUCCESS: i32 = 1;

/// Status code reporting "false / not trusted" for boolean queries.
pub const CODE_FALSE: i32 = 0;

/// Status code for [`SignalError::InvalidKey`].
pub const CODE_INVALID_KEY: i32 = -1;

/// Status code for [`SignalError::InvalidSignature`].
pub const CODE_INVALID_SIGNATURE: i32 = -2;

/// Status code for [`SignalError::AgreementFailure`].
pub const CODE_AGREEMENT_FAILURE: i32 = -3;

/// Status code for [`SignalError::StoreCallbackFailure`].
pub const CODE_STORE_CALLBACK_FAILURE: i32 = -4;

/// Status code for [`SignalError::NotFound`].
pub const CODE_NOT_FOUND: i32 = -5;

/// Status code for [`SignalError::UnknownEngineError`].
pub const CODE_UNKNOWN: i32 = -6;

/// The status code that reports a given failure kind.
pub open spec fn spec_code_of(e: SignalError) -> i32 {
    match e {
        SignalError::InvalidKey => CODE_INVALID_KEY,
        SignalError::InvalidSignature => CODE_INVALID_SIGNATURE,
        SignalError::AgreementFailure => CODE_AGREEMENT_FAILURE,
        SignalError::StoreCallbackFailure => CODE_STORE_CALLBACK_FAILURE,
        SignalError::NotFound => CODE_NOT_FOUND,
        SignalError::UnknownEngineError => CODE_UNKNOWN,
    }
}

/// The failure kind that a status code reads back as. Codes outside the
/// fixed table read back as [`SignalError::UnknownEngineError`].
pub open spec fn spec_error_of_code(code: i32) -> SignalError {
    if code == CODE_INVALID_KEY {
        SignalError::InvalidKey
    } else if code == CODE_INVALID_SIGNATURE {
        SignalError::InvalidSignature
    } else if code == CODE_AGREEMENT_FAILURE {
        SignalError::AgreementFailure
    } else if code == CODE_STORE_CALLBACK_FAILURE {
        SignalError::StoreCallbackFailure
    } else if code == CODE_NOT_FOUND {
        SignalError::NotFound
    } else {
        SignalError::UnknownEngineError
    }
}

/// Map a failure kind to its status code.
pub fn code_of(e: SignalError) -> (code: i32)
    ensures
        code == spec_code_of(e),
{
    match e {
        SignalError::InvalidKey => CODE_INVALID_KEY,
        SignalError::InvalidSignature => CODE_INVALID_SIGNATURE,
        SignalError::AgreementFailure => CODE_AGREEMENT_FAILURE,
        SignalError::StoreCallbackFailure => CODE_STORE_CALLBACK_FAILURE,
        SignalError::NotFound => CODE_NOT_FOUND,
        SignalError::UnknownEngineError => CODE_UNKNOWN,
    }
}

/// Map a status code back to the failure kind it reports.
pub fn error_of_code(code: i32) -> (e: SignalError)
    ensures
        e == spec_error_of_code(code),
{
    if code == CODE_INVALID_KEY {
        SignalError::InvalidKey
    } else if code == CODE_INVALID_SIGNATURE {
        SignalError::InvalidSignature
    } else if code == CODE_AGREEMENT_FAILURE {
        SignalError::AgreementFailure
    } else if code == CODE_STORE_CALLBACK_FAILURE {
        SignalError::StoreCallbackFailure
    } else if code == CODE_NOT_FOUND {
        SignalError::NotFound
    } else {
        SignalError::UnknownEngineError
    }
}

/// Every failure kind reports as a strictly negative status code, so no
/// failure can be mistaken for success or for a boolean query result.
pub proof fn lemma_failure_codes_negative(e: SignalError)
    ensures
        spec_code_of(e) < 0,
{
}

/// Mapping a failure kind to its status code and reading it back yields
/// the same kind: the boundary loses no failure information.
pub proof fn lemma_error_code_round_trip(e: SignalError)
    ensures
        spec_error_of_code(spec_code_of(e)) == e,
{
}

/// Every code of the fixed table survives the trip through the failure
/// kind it reads back as.
pub proof fn lemma_code_error_round_trip(code: i32)
    requires
        CODE_UNKNOWN <= code <= CODE_INVALID_KEY,
    ensures
        spec_code_of(spec_error_of_code(code)) == code,
{
}

} // verus!
