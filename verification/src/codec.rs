//! Decoding of the remote exchange's reply payload.
//!
//! The exchange answers a price query with a JSON payload that encodes a
//! 128-bit amount as a base-10 string. Parsing that payload is the one piece
//! of outside computation the router's logic depends on.

use vstd::prelude::*;

verus! {

/// The amount, if any, that a reply payload encodes: the outcome of parsing
/// the bytes as the exchange's JSON representation of a 128-bit amount.
pub uninterp spec fn amount_json_of(payload: Seq<u8>) -> Option<u128>;

/// Relies on `near_sdk::serde_json::from_slice::<U128>`: parsing a JSON
/// payload into near_sdk's string-encoded 128-bit integer type is a
/// deterministic function of the payload bytes alone.
#[verifier::external_body]
pub(crate) fn decode_amount(payload: &Vec<u8>) -> (r: Option<u128>)
    ensures
        r == amount_json_of(payload@),
{
    match near_sdk::serde_json::from_slice::<near_sdk::json_types::U128>(payload.as_slice()) {
        Ok(v) => Some(v.0),
        Err(_) => None,
    }
}

} // verus!
