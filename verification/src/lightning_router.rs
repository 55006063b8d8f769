//! Payments that leave the node through the underlying payment engine:
//! what is asked of the engine and what its answer comes to.

use crate::error::AppError;
use crate::error::AppFailure;
use crate::text::join;
use crate::user_manager::text_of;
use vstd::prelude::*;

verus! {

/// A payment to be sent.
#[derive(Clone, Debug)]
pub struct LightningPaymentRequest {
    pub invoice: String,
    pub amt_msat: Option<u64>,
}

/// What became of a payment.
#[derive(Clone, Debug)]
pub struct LightningPaymentResponse {
    pub payment_id: String,
    pub payment_hash: Option<String>,
    pub status: String,
}

/// What is asked of the engine for an invoice.
#[derive(Clone, Debug)]
pub struct InvoiceParameters {
    pub asset_id: Option<String>,
    pub duration_seconds: Option<u32>,
    pub min_confirmations: u8,
}

/// The confirmations that an invoice asks for where none are given.
pub open spec fn confirmations_or_default(min_confirmations: Option<u8>) -> u8 {
    match min_confirmations {
        Some(n) => n,
        None => 1,
    }
}

/// The router of payments through the payment engine.
pub struct LightningRouter {}

impl LightningRouter {
    /// A router.
    pub fn new() -> (res: LightningRouter) {
        LightningRouter {  }
    }

    /// The request for sending `invoice`.
    pub fn payment_request(&self, invoice: String, amount_msat: Option<u64>) -> (res:
        LightningPaymentRequest)
        ensures
            res.invoice@ == invoice@,
            res.amt_msat == amount_msat,
    {
        LightningPaymentRequest { invoice, amt_msat: amount_msat }
    }

    /// What the engine's answer to a payment comes to: the response as
    /// it is, or a `Generic` error that says `Lightning payment failed: `
    /// and why.
    pub fn send_lightning_payment(
        &self,
        answer: Result<LightningPaymentResponse, String>,
    ) -> (res: Result<LightningPaymentResponse, AppError>)
        ensures
            match answer {
                Ok(response) => res == Ok::<LightningPaymentResponse, AppError>(response),
                Err(cause) => res matches Err(e) && e@ == AppFailure::Generic(
                    "Lightning payment failed: "@ + cause@,
                ),
            },
    {
        match answer {
            Ok(response) => Ok(response),
            Err(cause) => Err(
                AppError::Generic(join("Lightning payment failed: ", cause.as_str())),
            ),
        }
    }

    /// What is asked of the engine for an invoice: one confirmation
    /// where none are given.
    pub fn invoice_parameters(
        &self,
        asset_id: Option<String>,
        duration_seconds: Option<u32>,
        min_confirmations: Option<u8>,
    ) -> (res: InvoiceParameters)
        ensures
            text_of(res.asset_id) == text_of(asset_id),
            res.duration_seconds == duration_seconds,
            res.min_confirmations == confirmations_or_default(min_confirmations),
    {
        InvoiceParameters {
            asset_id,
            duration_seconds,
            min_confirmations: match min_confirmations {
                Some(n) => n,
                None => 1,
            },
        }
    }

    /// What the engine's answer to an invoice request comes to: the
    /// invoice, or a `Generic` error that says `Invoice creation failed: `
    /// and why.
    pub fn create_lightning_invoice(&self, answer: Result<String, String>) -> (res: Result<
        String,
        AppError,
    >)
        ensures
            match answer {
                Ok(invoice) => res == Ok::<String, AppError>(invoice),
                Err(cause) => res matches Err(e) && e@ == AppFailure::Generic(
                    "Invoice creation failed: "@ + cause@,
                ),
            },
    {
        match answer {
            Ok(invoice) => Ok(invoice),
            Err(cause) => Err(AppError::Generic(join("Invoice creation failed: ", cause.as_str()))),
        }
    }

    /// What the engine's answer to an address request comes to: the
    /// address, or a `Generic` error that says
    /// `Address generation failed: ` and why.
    pub fn get_new_address(&self, answer: Result<String, String>) -> (res: Result<String, AppError>)
        ensures
            match answer {
                Ok(address) => res == Ok::<String, AppError>(address),
                Err(cause) => res matches Err(e) && e@ == AppFailure::Generic(
                    "Address generation failed: "@ + cause@,
                ),
            },
    {
        match answer {
            Ok(address) => Ok(address),
            Err(cause) => Err(
                AppError::Generic(join("Address generation failed: ", cause.as_str())),
            ),
        }
    }
}

} // verus!
