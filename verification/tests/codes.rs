use signal_stores::error::{
    code_of, error_of_code, SignalError, CODE_AGREEMENT_FAILURE, CODE_FALSE, CODE_INVALID_KEY,
    CODE_INVALID_SIGNATURE, CODE_NOT_FOUND, CODE_STORE_CALLBACK_FAILURE, CODE_SUCCESS,
    CODE_UNKNOWN,
};

#[test]
fn code_table_values() {
    assert_eq!(CODE_SUCCESS, 1);
    assert_eq!(CODE_FALSE, 0);
    assert_eq!(code_of(SignalError::InvalidKey), -1);
    assert_eq!(code_of(SignalError::InvalidSignature), -2);
    assert_eq!(code_of(SignalError::AgreementFailure), -3);
    assert_eq!(code_of(SignalError::StoreCallbackFailure), -4);
    assert_eq!(code_of(SignalError::NotFound), -5);
    assert_eq!(code_of(SignalError::UnknownEngineError), -6);
}

#[test]
fn every_error_round_trips_through_its_code() {
    let kinds = [
        SignalError::InvalidKey,
        SignalError::InvalidSignature,
        SignalError::AgreementFailure,
        SignalError::StoreCallbackFailure,
        SignalError::NotFound,
        SignalError::UnknownEngineError,
    ];
    for e in kinds {
        assert!(code_of(e) < 0);
        assert_eq!(error_of_code(code_of(e)), e);
    }
}

#[test]
fn mapped_codes_round_trip() {
    assert_eq!(error_of_code(CODE_INVALID_KEY), SignalError::InvalidKey);
    assert_eq!(
        error_of_code(CODE_INVALID_SIGNATURE),
        SignalError::InvalidSignature
    );
    assert_eq!(
        error_of_code(CODE_AGREEMENT_FAILURE),
        SignalError::AgreementFailure
    );
    assert_eq!(
        error_of_code(CODE_STORE_CALLBACK_FAILURE),
        SignalError::StoreCallbackFailure
    );
    assert_eq!(error_of_code(CODE_NOT_FOUND), SignalError::NotFound);
    assert_eq!(error_of_code(CODE_UNKNOWN), SignalError::UnknownEngineError);
}

#[test]
fn unmapped_codes_read_as_unknown() {
    assert_eq!(error_of_code(-77), SignalError::UnknownEngineError);
    assert_eq!(error_of_code(-1000), SignalError::UnknownEngineError);
    assert_eq!(error_of_code(7), SignalError::UnknownEngineError);
}
