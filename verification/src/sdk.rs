//! Trusted interface to the `soroban_sdk` items that the verified code uses.
//!
//! Everything in this file is believed by Verus without proof; each item's
//! doc comment says what is claimed of the outside code.
use soroban_sdk::Error as HostError;
use vstd::prelude::*;

verus! {

/// `soroban_sdk::Address`, carried opaquely (no verified code looks inside).
#[verifier::external_type_specification]
#[verifier::external_body]
pub struct ExAddress(soroban_sdk::Address);

/// `Clone` of `soroban_sdk::Address` (it clones the environment handle and
/// copies the object handle); nothing is claimed of the result.
pub assume_specification[<soroban_sdk::Address as Clone>::clone](a: &soroban_sdk::Address) -> (r:
    soroban_sdk::Address);

/// `soroban_sdk::Error` (the host's error value: an error type and a code).
#[verifier::external_type_specification]
#[verifier::external_body]
pub struct ExHostError(HostError);

/// `soroban_sdk::Vec<T>`, a vector object that lives in the Soroban host.
#[verifier::external_type_specification]
#[verifier::external_body]
#[verifier::reject_recursive_types(T)]
pub struct ExHostVec<T>(soroban_sdk::Vec<T>);

/// The slots of a host vector that is typed `Vec<u64>`, in order. The host
/// does not check element types, so a slot holds `Some(x)` when the value
/// stored there converts to the `u64` `x`, and `None` when it does not.
pub uninterp spec fn host_vec_u64_slots(v: soroban_sdk::Vec<u64>) -> Seq<Option<u64>>;

/// The host error value that `soroban_sdk::Error::from_contract_error` builds
/// for a contract error code.
pub uninterp spec fn host_contract_error(code: u32) -> HostError;

/// Calls `soroban_sdk::Vec::<u64>::len`: the number of slots of the vector.
#[verifier::external_body]
pub(crate) fn host_vec_u64_len(v: &soroban_sdk::Vec<u64>) -> (n: u32)
    ensures
        n as int == host_vec_u64_slots(*v).len(),
{
    v.len()
}

/// Calls `soroban_sdk::Vec::<u64>::try_get`: `Ok(None)` past the end, the
/// element in `Ok(Some(..))` where the slot's value converts to `u64`, and an
/// `Err` where it does not.
#[verifier::external_body]
pub(crate) fn host_vec_u64_try_get(v: &soroban_sdk::Vec<u64>, i: u32) -> (r: Result<
    Option<u64>,
    HostError,
>)
    ensures
        i >= host_vec_u64_slots(*v).len() ==> (r matches Ok(None)),
        i < host_vec_u64_slots(*v).len() ==> (match host_vec_u64_slots(*v)[i as int] {
            Some(x) => (r matches Ok(Some(y)) && y == x),
            None => r is Err,
        }),
{
    v.try_get(i)
}

/// Calls `soroban_sdk::Error::from_contract_error`: the host error of type
/// `Contract` that carries `code`.
#[verifier::external_body]
pub(crate) fn host_error_from_contract_code(code: u32) -> (e: HostError)
    ensures
        e == host_contract_error(code),
{
    HostError::from_contract_error(code)
}

} // verus!
