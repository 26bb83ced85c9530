use vstd::prelude::*;

use vstd::utf8::{decode_utf8, valid_utf8};

use crate::errors::WorkflowError;

verus! {

#[verifier::external_type_specification]
#[verifier::external_body]
pub struct ExFromUtf8Error(std::string::FromUtf8Error);

/// Relies on String::from_utf8: it succeeds exactly on valid UTF-8 and
/// returns the string those bytes encode.
pub assume_specification[ String::from_utf8 ](v: Vec<u8>) -> (r: Result<
    String,
    std::string::FromUtf8Error,
>)
    ensures
        r is Ok <==> valid_utf8(v@),
        r matches Ok(s) ==> s@ == decode_utf8(v@),
;

/// Decodes a response or cache body: exactly the valid UTF-8 byte sequences
/// decode, and to the text they encode; anything else is a decode failure.
pub fn decode_body(bytes: Vec<u8>) -> (r: Result<String, WorkflowError>)
    ensures
        r is Ok <==> valid_utf8(bytes@),
        r matches Ok(s) ==> s@ == decode_utf8(bytes@),
        r matches Err(e) ==> e == WorkflowError::DecodeFailure,
{
    match String::from_utf8(bytes) {
        Ok(s) => Ok(s),
        Err(_) => Err(WorkflowError::DecodeFailure),
    }
}

} // verus!
