//! Responses of the runtime that are read as JSON.

use vstd::prelude::*;

use crate::error::DenoWorkerError;

verus! {

/// A JSON value, as `serde_json` holds it. The library hands it to the
/// caller as it got it.
#[verifier::external_type_specification]
#[verifier::external_body]
pub struct ExJsonValue(serde_json::Value);

/// What `serde_json::from_slice` makes of the bytes `body`: the JSON value
/// that they spell, or nothing where they spell none.
pub uninterp spec fn json_value_of(body: Seq<u8>) -> Option<serde_json::Value>;

/// Reads `body` as JSON. This calls `serde_json::from_slice`, which hands
/// back the value that the bytes spell, or says why they spell none; the
/// same bytes always give the same.
#[verifier::external_body]
fn read_json(body: &[u8]) -> (read: Result<serde_json::Value, serde_json::Error>)
    ensures
        match read {
            Ok(value) => json_value_of(body@) == Some(value),
            Err(_) => json_value_of(body@) is None,
        },
{
    serde_json::from_slice(body)
}

/// Decodes the body of a response as JSON. A body that is no JSON gives the
/// error `ParseResponse`, which no failure of the exchange itself gives.
pub fn decode_json(body: &[u8]) -> (decoded: Result<serde_json::Value, DenoWorkerError>)
    ensures
        match decoded {
            Ok(value) => json_value_of(body@) == Some(value),
            Err(error) => json_value_of(body@) is None && error is ParseResponse,
        },
{
    match read_json(body) {
        Ok(value) => Ok(value),
        Err(error) => Err(DenoWorkerError::from(error)),
    }
}

} // verus!
