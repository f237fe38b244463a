//! Reading the reply of another contract.

use vstd::prelude::*;

verus! {

/// The number that a JSON text holds as near-sdk's `U128` reads it (a
/// quoted base-10 number), or `None` where the text is not one.
pub uninterp spec fn json_u128(bytes: Seq<u8>) -> Option<u128>;

/// Reads a `U128` from JSON bytes with near-sdk's `serde_json::from_slice`.
/// The contract claims only that the result is `json_u128` of the bytes:
/// what that is on given bytes is left to serde_json.
#[verifier::external_body]
pub(crate) fn parse_json_u128(bytes: &Vec<u8>) -> (r: Option<u128>)
    ensures
        r == json_u128(bytes@),
{
    match near_sdk::serde_json::from_slice::<near_sdk::json_types::U128>(bytes) {
        Ok(v) => Some(v.0),
        Err(_) => None,
    }
}

/// The outcome of a call to another contract, as the callback sees it.
pub enum PromiseOutcome {
    Successful(Vec<u8>),
    Failed,
}

} // verus!
