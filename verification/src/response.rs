use vstd::prelude::*;
use crate::error::Error;

verus! {

/// The response body decoded as a JSON document.  The value is carried
/// through opaquely and returned to the caller verbatim: its schema is never
/// interpreted here.
#[verifier::external_type_specification]
#[verifier::external_body]
pub struct ExValue(serde_json::Value);

/// Whether a byte sequence is a well-formed JSON document; decided by the
/// bytes alone.
pub uninterp spec fn json_parse_ok(bytes: Seq<u8>) -> bool;

/// Relies on serde_json::from_slice: deserializing to `serde_json::Value`
/// succeeds exactly when the bytes form one well-formed JSON document, and
/// the outcome is a function of the bytes alone.
#[verifier::external_body]
fn parse_json(bytes: &Vec<u8>) -> (r: Result<serde_json::Value, String>)
    ensures
        r is Ok <==> json_parse_ok(bytes@),
{
    match serde_json::from_slice::<serde_json::Value>(bytes.as_slice()) {
        Ok(v) => Ok(v),
        Err(e) => Err(e.to_string()),
    }
}

/// Decodes a response body as structured data, to be returned verbatim to
/// the caller.  A body that does not decode is a Request-class failure, like
/// any other transport trouble; no retry follows.
pub fn decode_response(body: &Vec<u8>) -> (r: Result<serde_json::Value, Error>)
    ensures
        r is Ok <==> json_parse_ok(body@),
        r matches Err(e) ==> e is Request,
{
    match parse_json(body) {
        Ok(v) => Ok(v),
        Err(m) => Err(Error::Request(m)),
    }
}

} // verus!
