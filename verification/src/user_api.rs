//! The simple per-user API: its requests, its answers, and the values
//! that stand in for the wallet until it is connected.

use crate::text::decimal_of;
use crate::text::decimal_of_nat;
use crate::text::i64_to_text;
use crate::text::join;
use crate::text::text_eq;
use crate::text::u64_to_text;
use vstd::prelude::*;

verus! {

/// A user asks for its balance of an asset.
#[derive(Clone, Debug)]
pub struct UserAssetBalanceRequest {
    pub user_id: String,
    pub asset_id: String,
}

/// A user asks for a token invoice.
#[derive(Clone, Debug)]
pub struct UserRgbInvoiceRequest {
    pub user_id: String,
    pub asset_id: String,
}

/// A user asks for an asset to be sent.
#[derive(Clone, Debug)]
pub struct UserSendAssetRequest {
    pub user_id: String,
    pub invoice: String,
    pub asset_id: String,
    pub amount: u64,
}

/// The envelope of every answer.
#[derive(Clone, Debug)]
pub struct ApiResponse<T> {
    pub success: bool,
    pub data: Option<T>,
    pub error: Option<String>,
}

impl<T> ApiResponse<T> {
    /// The answer that carries `data`.
    pub fn ok(data: T) -> (res: ApiResponse<T>)
        ensures
            res.success,
            res.data == Some(data),
            res.error is None,
    {
        ApiResponse { success: true, data: Some(data), error: None }
    }
}

/// The number that a text is read as by `str::parse`, where it is read
/// as one.
pub uninterp spec fn parsed_i64(text: Seq<char>) -> Option<i64>;

/// Calls `str::parse::<i64>`. Trusted: what it returns is a function of
/// the text alone.
#[verifier::external_body]
pub(crate) fn parse_i64(text: &str) -> (res: Option<i64>)
    ensures
        res == parsed_i64(text@),
{
    text.parse::<i64>().ok()
}

/// The user that a request names: the number its `user_id` is read as,
/// or zero.
pub open spec fn user_number(parsed: Option<i64>) -> i64 {
    match parsed {
        Some(n) => n,
        None => 0,
    }
}

/// The user that a request names, given what its `user_id` was read as.
pub fn user_number_of(parsed: Option<i64>) -> (res: i64)
    ensures
        res == user_number(parsed),
{
    match parsed {
        Some(n) => n,
        None => 0,
    }
}

/// The user that the text `user_id` names: the number it is read as, or
/// zero.
pub fn parse_user_id(user_id: &str) -> (res: i64)
    ensures
        res == user_number(parsed_i64(user_id@)),
{
    user_number_of(parse_i64(user_id))
}

/// The remainder of `user_id` by `modulus`, with the sign of `user_id`,
/// times `factor`, as 64 bits without a sign.
pub open spec fn stand_in_amount(user_id: i64, modulus: int, factor: int) -> u64 {
    let magnitude = if user_id < 0 {
        -(user_id as int)
    } else {
        user_id as int
    };
    let product = (magnitude % modulus) * factor;
    if user_id >= 0 || product == 0 {
        product as u64
    } else {
        (0x1_0000_0000_0000_0000 - product) as u64
    }
}

/// The balance that stands in for the wallet's: a figure made of the
/// user's number for `USDT` and for `BTC`, and zero for anything else.
pub open spec fn stand_in_balance(user_id: i64, asset_id: Seq<char>) -> u64 {
    if asset_id == "USDT"@ {
        stand_in_amount(user_id, 1000, 1000)
    } else if asset_id == "BTC"@ {
        stand_in_amount(user_id, 100, 100000)
    } else {
        0
    }
}

fn stand_in(user_id: i64, modulus: u64, factor: u64) -> (res: u64)
    requires
        0 < modulus <= 1000,
        factor <= 100000,
    ensures
        res == stand_in_amount(user_id, modulus as int, factor as int),
{
    let magnitude: u64 = if user_id < 0 {
        (-(user_id as i128)) as u64
    } else {
        user_id as u64
    };
    let remainder: u64 = magnitude % modulus;
    assert(remainder * factor <= 1000 * 100000) by (nonlinear_arith)
        requires
            remainder < 1000,
            factor <= 100000,
    ;
    let product: u64 = remainder * factor;
    if user_id >= 0 || product == 0 {
        product
    } else {
        ((0x1_0000_0000_0000_0000u128 - product as u128) as u64)
    }
}

/// The balance of `user_id` in `asset_id`, as long as the wallet is not
/// connected.
pub fn get_user_asset_balance(user_id: i64, asset_id: &str) -> (res: u64)
    ensures
        res == stand_in_balance(user_id, asset_id@),
{
    if text_eq(asset_id, "USDT") {
        stand_in(user_id, 1000, 1000)
    } else if text_eq(asset_id, "BTC") {
        stand_in(user_id, 100, 100000)
    } else {
        0
    }
}

/// The invoice of `user_id` for `asset_id` made at `now`, as long as the
/// wallet is not connected.
pub fn generate_user_rgb_invoice(user_id: i64, asset_id: &str, now: i64) -> (res: String)
    ensures
        res@ == "rgb:"@ + asset_id@ + ":any:user_"@ + decimal_of(user_id as int) + ":blinding_"@
            + decimal_of(now as int),
{
    join("rgb:", asset_id).concat(":any:user_").concat(i64_to_text(user_id).as_str()).concat(
        ":blinding_",
    ).concat(i64_to_text(now).as_str())
}

/// The identifier of the transaction that sends `amount` of `asset_id`
/// for `user_id` at `now`, as long as the wallet is not connected.
pub fn send_user_asset(user_id: i64, asset_id: &str, amount: u64, now: i64) -> (res: String)
    ensures
        res@ == "txid_"@ + decimal_of(user_id as int) + "_"@ + asset_id@ + "_"@ + decimal_of_nat(
            amount as nat,
        ) + "_"@ + decimal_of(now as int),
{
    join("txid_", i64_to_text(user_id).as_str()).concat("_").concat(asset_id).concat("_").concat(
        u64_to_text(amount).as_str(),
    ).concat("_").concat(i64_to_text(now).as_str())
}

/// The answer to a user that asks for its balance.
pub fn handle_asset_balance(req: &UserAssetBalanceRequest) -> (res: ApiResponse<u64>)
    ensures
        res.success,
        res.data == Some(
            stand_in_balance(user_number(parsed_i64(req.user_id@)), req.asset_id@),
        ),
        res.error is None,
{
    let user_id = parse_user_id(req.user_id.as_str());
    ApiResponse::ok(get_user_asset_balance(user_id, req.asset_id.as_str()))
}

/// The answer to a user that asks for a token invoice at `now`.
pub fn handle_rgb_invoice(req: &UserRgbInvoiceRequest, now: i64) -> (res: ApiResponse<String>)
    ensures
        res.success,
        res.error is None,
        res.data matches Some(invoice) && invoice@ == "rgb:"@ + req.asset_id@ + ":any:user_"@
            + decimal_of(user_number(parsed_i64(req.user_id@)) as int) + ":blinding_"@
            + decimal_of(now as int),
{
    let user_id = parse_user_id(req.user_id.as_str());
    ApiResponse::ok(generate_user_rgb_invoice(user_id, req.asset_id.as_str(), now))
}

/// The answer to a user that asks for an asset to be sent at `now`.
pub fn handle_send_asset(req: &UserSendAssetRequest, now: i64) -> (res: ApiResponse<String>)
    ensures
        res.success,
        res.error is None,
        res.data matches Some(txid) && txid@ == "txid_"@ + decimal_of(
            user_number(parsed_i64(req.user_id@)) as int,
        ) + "_"@ + req.asset_id@ + "_"@ + decimal_of_nat(req.amount as nat) + "_"@ + decimal_of(
            now as int,
        ),
{
    let user_id = parse_user_id(req.user_id.as_str());
    ApiResponse::ok(send_user_asset(user_id, req.asset_id.as_str(), req.amount, now))
}

} // verus!
