//! Requests and answers for seeding a node with outputs and addresses
//! while it is being tried out.

use crate::error::APIError;
use crate::error::ApiFailure;
use crate::text::decimal_of;
use crate::text::decimal_of_nat;
use crate::text::i64_to_text;
use crate::text::join;
use crate::text::u64_to_text;
use crate::user_api::parse_i64;
use crate::user_api::parsed_i64;
use vstd::prelude::*;

verus! {

/// A request to add an output to a user.
#[derive(Clone, Debug)]
pub struct AddTestUtxoRequest {
    pub user_id: i64,
    pub amount_sats: u64,
}

/// The answer to a request to add an output.
#[derive(Clone, Debug)]
pub struct AddTestUtxoResponse {
    pub success: bool,
    pub txid: String,
    pub message: String,
}

/// A request to add an address to a user.
#[derive(Clone, Debug)]
pub struct AddTestAddressRequest {
    pub user_id: String,
    pub address: String,
}

/// The answer to a request to add an address.
#[derive(Clone, Debug)]
pub struct AddTestAddressResponse {
    pub success: bool,
    pub message: String,
}

/// The answer after an output was added under the unique text `unique`:
/// its transaction is `test_` and that text.
pub fn add_test_utxo(payload: &AddTestUtxoRequest, unique: &str) -> (res: AddTestUtxoResponse)
    ensures
        res.success,
        res.txid@ == "test_"@ + unique@,
        res.message@ == "Added "@ + decimal_of_nat(payload.amount_sats as nat) + " sats to user "@
            + decimal_of(payload.user_id as int),
{
    AddTestUtxoResponse {
        success: true,
        txid: join("test_", unique),
        message: join("Added ", u64_to_text(payload.amount_sats).as_str()).concat(
            " sats to user ",
        ).concat(i64_to_text(payload.user_id).as_str()),
    }
}

/// The user that a request to add an address names. Fails with
/// `Unexpected` where the user is not a number.
pub fn test_address_user(payload: &AddTestAddressRequest) -> (res: Result<i64, APIError>)
    ensures
        match parsed_i64(payload.user_id@) {
            Some(user_id) => res == Ok::<i64, APIError>(user_id),
            None => res matches Err(e) && e@ == ApiFailure::Unexpected("Invalid user_id format"@),
        },
{
    match parse_i64(payload.user_id.as_str()) {
        Some(user_id) => Ok(user_id),
        None => Err(APIError::Unexpected(String::from_str("Invalid user_id format"))),
    }
}

/// The answer after an address was added.
pub fn add_test_address(payload: &AddTestAddressRequest) -> (res: AddTestAddressResponse)
    ensures
        res.success,
        res.message@ == "Added address "@ + payload.address@ + " for user "@ + payload.user_id@,
{
    AddTestAddressResponse {
        success: true,
        message: join("Added address ", payload.address.as_str()).concat(" for user ").concat(
            payload.user_id.as_str(),
        ),
    }
}

} // verus!
