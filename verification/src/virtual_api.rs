//! The requests and answers of the tenant-scoped API, and how they map
//! to what the node is asked and what it answers.

use crate::error::APIError;
use crate::error::AppError;
use crate::lightning_router::confirmations_or_default;
use crate::lightning_router::InvoiceParameters;
use crate::lightning_router::LightningPaymentResponse;
use crate::user_manager::text_of;
use vstd::prelude::*;

verus! {

/// A tenant asks for a token invoice.
#[derive(Clone, Debug)]
pub struct VirtualRgbInvoiceRequest {
    pub user_id: String,
    pub asset_id: Option<String>,
    pub duration_seconds: Option<u32>,
    pub min_confirmations: Option<u8>,
}

/// The token invoice of a tenant.
#[derive(Clone, Debug)]
pub struct VirtualRgbInvoiceResponse {
    pub recipient_id: String,
    pub invoice: String,
    pub expiration_timestamp: Option<i64>,
    pub batch_transfer_idx: i32,
}

/// A tenant asks for a payment to be sent.
#[derive(Clone, Debug)]
pub struct VirtualSendPaymentRequest {
    pub user_id: String,
    pub invoice: String,
    pub amt_msat: Option<u64>,
}

/// What became of a tenant's payment.
#[derive(Clone, Debug)]
pub struct VirtualSendPaymentResponse {
    pub payment_id: String,
    pub payment_hash: Option<String>,
    pub status: String,
}

/// A tenant asks for its balance of an asset.
#[derive(Clone, Debug)]
pub struct VirtualAssetBalanceRequest {
    pub user_id: String,
    pub asset_id: String,
}

/// A tenant's balance of an asset.
#[derive(Clone, Copy, Debug, PartialEq, Eq, Structural)]
pub struct VirtualAssetBalanceResponse {
    pub settled: u64,
    pub future: u64,
    pub spendable: u64,
    pub offchain_outbound: u64,
    pub offchain_inbound: u64,
}

/// What the node is asked for a tenant's token invoice: the asset and
/// the duration as given, and one confirmation where none are given.
pub fn virtual_rgbinvoice(req: VirtualRgbInvoiceRequest) -> (res: InvoiceParameters)
    ensures
        text_of(res.asset_id) == text_of(req.asset_id),
        res.duration_seconds == req.duration_seconds,
        res.min_confirmations == confirmations_or_default(req.min_confirmations),
{
    InvoiceParameters {
        asset_id: req.asset_id,
        duration_seconds: req.duration_seconds,
        min_confirmations: match req.min_confirmations {
            Some(n) => n,
            None => 1,
        },
    }
}

/// The answer to a tenant whose payment was sent, or `FailedPayment`
/// with the words of the error where it was not.
pub fn virtual_sendpayment(answer: Result<LightningPaymentResponse, AppError>) -> (res: Result<
    VirtualSendPaymentResponse,
    APIError,
>)
    ensures
        match answer {
            Ok(response) => res matches Ok(sent) && sent.payment_id@ == response.payment_id@
                && text_of(sent.payment_hash) == text_of(response.payment_hash) && sent.status@
                == response.status@,
            Err(_) => res matches Err(e) && e is FailedPayment,
        },
{
    match answer {
        Ok(response) => Ok(
            VirtualSendPaymentResponse {
                payment_id: response.payment_id,
                payment_hash: response.payment_hash,
                status: response.status,
            },
        ),
        Err(e) => Err(APIError::FailedPayment(e.message())),
    }
}

/// The asset that the node is asked about for a tenant's balance.
pub fn virtual_assetbalance(req: VirtualAssetBalanceRequest) -> (res: String)
    ensures
        res@ == req.asset_id@,
{
    req.asset_id
}

} // verus!
