//! Classification of failed calls by their gRPC status code.
use crate::worker::{ErrorClass, Outcome};
use vstd::prelude::*;

verus! {

/// gRPC code of a reply refused for lack of a resource.
pub const CODE_RESOURCE_EXHAUSTED: i32 = 8;

/// gRPC code of a service that could not be reached.
pub const CODE_UNAVAILABLE: i32 = 14;

/// The class of a failure with gRPC code `code`.
pub open spec fn class_of_code(code: i32) -> ErrorClass {
    if code == CODE_RESOURCE_EXHAUSTED {
        ErrorClass::ResourceExhausted
    } else if code == CODE_UNAVAILABLE {
        ErrorClass::Unavailable
    } else {
        ErrorClass::Other
    }
}

#[verifier::external_type_specification]
#[verifier::external_body]
pub struct ExStatus(tonic::Status);

/// The gRPC code number of a status.
pub uninterp spec fn status_code(s: tonic::Status) -> i32;

/// Relies on `tonic::Status::code` and tonic's `From<Code> for i32`: the
/// status's code as its gRPC number, which lies between 0 and 16.
#[verifier::external_body]
fn status_code_number(s: &tonic::Status) -> (r: i32)
    ensures
        r == status_code(*s),
        0 <= r <= 16,
{
    i32::from(s.code())
}

/// Exec form of `class_of_code`.
pub fn classify_code(code: i32) -> (r: ErrorClass)
    ensures
        r == class_of_code(code),
{
    if code == CODE_RESOURCE_EXHAUSTED {
        ErrorClass::ResourceExhausted
    } else if code == CODE_UNAVAILABLE {
        ErrorClass::Unavailable
    } else {
        ErrorClass::Other
    }
}

/// The class of a failed call's status, by its gRPC code.
pub fn classify_status(s: &tonic::Status) -> (r: ErrorClass)
    ensures
        r == class_of_code(status_code(*s)),
{
    let code = status_code_number(s);
    classify_code(code)
}

/// The outcome of a call that returned `result` after `elapsed_ms`.
pub fn outcome_of(result: &Result<(), tonic::Status>, elapsed_ms: u128) -> (r: Outcome)
    ensures
        result is Ok ==> r == Outcome::Succeeded(elapsed_ms),
        result matches Err(e) ==> r == Outcome::Failed(class_of_code(status_code(*e))),
{
    match result {
        Ok(()) => Outcome::Succeeded(elapsed_ms),
        Err(e) => Outcome::Failed(classify_status(e)),
    }
}

} // verus!
