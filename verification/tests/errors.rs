use drip_stream::batch_transfer_processor::Error as BatchError;
use drip_stream::stream::errors::Error;
use drip_stream::stream::yield_integration::RebateError;

#[test]
fn stream_error_codes() {
    assert_eq!(Error::NotAuthorized.code(), 1);
    assert_eq!(Error::ArithmeticOverflow.code(), 12);
    assert_eq!(Error::ReentrancyForbidden.code(), 16);
    assert_eq!(Error::StreamUnderfunded.code(), 20);
}

#[test]
fn batch_error_codes() {
    assert_eq!(BatchError::ProcessorLocked.code(), 2001);
    assert_eq!(BatchError::CalculationOverflow.code(), 2002);
    assert_eq!(BatchError::BatchTooLarge.code(), 2003);
}

#[test]
fn rebate_error_becomes_host_contract_error() {
    let e: soroban_sdk::Error = RebateError::PrincipalMismatch.into();
    assert_eq!(e.get_code(), 5);
    assert!(e.is_type(soroban_sdk::xdr::ScErrorType::Contract));
    let e: soroban_sdk::Error = RebateError::ArithmeticOverflow.into();
    assert_eq!(e.get_code(), 1);
    assert_eq!(RebateError::VaultOperationInProgress.code(), 4);
}
