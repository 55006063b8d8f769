//! Payments that reach the node for one of its tenants: whom a payment
//! is for, and what it is worth to them.

use crate::error::AppError;
use crate::error::AppFailure;
use crate::text::decimal_of;
use crate::text::i64_to_text;
use crate::text::join;
use crate::user_manager::entry;
use crate::user_manager::json_i64;
use crate::user_manager::json_parse;
use crate::user_manager::parsed_json_numbers;
use crate::user_manager::text_of;
use vstd::prelude::*;

verus! {

/// How long an invoice for an inbound payment stands, in seconds.
pub const INVOICE_EXPIRY_SECS: u32 = 3600;

/// A payment that reached the node.
#[derive(Clone, Debug)]
pub struct InboundPaymentEvent {
    pub payment_hash: String,
    pub amount_msat: u64,
    pub receiver_user_id: Option<i64>,
    pub metadata: Option<String>,
    pub timestamp: i64,
}

/// An invoice and the tenant it was made for.
#[derive(Clone, Debug)]
pub struct InvoiceWithMetadata {
    pub invoice: String,
    pub payment_hash: String,
    pub user_id: i64,
    pub amount_msat: u64,
    pub expiry: u32,
}

/// What the metadata of a payment says of its receiver.
#[derive(Clone, Copy, Debug, PartialEq, Eq, Structural)]
pub enum MetadataUser {
    /// The metadata is not a document.
    Unparsable,
    /// The document names no receiver.
    Missing,
    /// The document names this receiver.
    User(i64),
}

/// What a tenant is credited for an inbound payment.
#[derive(Clone, Debug)]
pub struct InboundCredit {
    pub user_id: i64,
    /// The identifier under which the credit is recorded.
    pub txid: String,
    pub amount_sats: i64,
}

/// What a credit says.
pub struct CreditModel {
    pub user_id: i64,
    pub txid: Seq<char>,
    pub amount_sats: i64,
}

impl View for InboundCredit {
    type V = CreditModel;

    open spec fn view(&self) -> CreditModel {
        CreditModel { user_id: self.user_id, txid: self.txid@, amount_sats: self.amount_sats }
    }
}

/// What metadata says of the receiver, given the integer fields of the
/// document that it is, or nothing where it is no document.
pub open spec fn metadata_user_of(fields: Option<Map<Seq<char>, i64>>) -> MetadataUser {
    match fields {
        None => MetadataUser::Unparsable,
        Some(numbers) => match entry(numbers, "user_id"@) {
            Some(user_id) => MetadataUser::User(user_id),
            None => MetadataUser::Missing,
        },
    }
}

/// What the metadata of an event says of the receiver, where the event
/// has metadata.
pub open spec fn event_metadata_user(metadata: Option<Seq<char>>) -> Option<MetadataUser> {
    match metadata {
        Some(text) => Some(metadata_user_of(parsed_json_numbers(text))),
        None => None,
    }
}

/// The receiver of a payment: the one the event names, else the one its
/// metadata names.
pub open spec fn receiver_of(
    receiver_user_id: Option<i64>,
    metadata: Option<MetadataUser>,
) -> Result<i64, AppFailure> {
    match receiver_user_id {
        Some(user_id) => Ok(user_id),
        None => match metadata {
            Some(MetadataUser::User(user_id)) => Ok(user_id),
            Some(MetadataUser::Missing) => Err(AppFailure::Generic("Invalid metadata format"@)),
            Some(MetadataUser::Unparsable) => Err(
                AppFailure::Generic("Failed to parse metadata"@),
            ),
            None => Err(AppFailure::Generic("No user ID found in payment event"@)),
        },
    }
}

/// The credit for a payment of `amount_msat` to `user_id`: whole
/// satoshis, recorded under `inbound_` and the payment hash.
pub open spec fn credit_of(user_id: i64, payment_hash: Seq<char>, amount_msat: u64) -> CreditModel {
    CreditModel {
        user_id,
        txid: "inbound_"@ + payment_hash,
        amount_sats: (amount_msat / 1000) as i64,
    }
}

/// The handler of inbound payments.
pub struct InboundPaymentHandler {}

impl InboundPaymentHandler {
    /// A handler.
    pub fn new() -> (res: InboundPaymentHandler) {
        InboundPaymentHandler {  }
    }

    /// The invoice record for an invoice that was made at `now` for
    /// `user_id`: it stands for an hour, and its payment hash is
    /// `hash_` and the time in seconds.
    pub fn create_user_invoice(&self, invoice: String, user_id: i64, amount_msat: u64, now: i64) -> (res:
        InvoiceWithMetadata)
        ensures
            res.invoice@ == invoice@,
            res.payment_hash@ == "hash_"@ + decimal_of(now as int),
            res.user_id == user_id,
            res.amount_msat == amount_msat,
            res.expiry == 3600,
    {
        InvoiceWithMetadata {
            invoice,
            payment_hash: join("hash_", i64_to_text(now).as_str()),
            user_id,
            amount_msat,
            expiry: INVOICE_EXPIRY_SECS,
        }
    }

    /// What the metadata of a payment says of its receiver: the number
    /// in the integer field `user_id` of the document, `Missing` where
    /// the document has no such field, and `Unparsable` where the
    /// metadata is no document.
    pub fn metadata_user(metadata: &str) -> (res: MetadataUser)
        ensures
            res == metadata_user_of(parsed_json_numbers(metadata@)),
    {
        match json_parse(metadata) {
            Some(document) => {
                match json_i64(&document, "user_id") {
                    Some(user_id) => MetadataUser::User(user_id),
                    None => MetadataUser::Missing,
                }
            },
            None => MetadataUser::Unparsable,
        }
    }

    /// The credit for an inbound payment, given what its metadata says:
    /// the receiver is the one the event names, else the one the
    /// metadata names, and is credited the whole satoshis of the amount.
    /// Fails with `Generic` where no receiver is named.
    pub fn credit_for(event: &InboundPaymentEvent, metadata: Option<MetadataUser>) -> (res: Result<
        InboundCredit,
        AppError,
    >)
        ensures
            match receiver_of(event.receiver_user_id, metadata) {
                Ok(user_id) => res matches Ok(credit) && credit@ == credit_of(
                    user_id,
                    event.payment_hash@,
                    event.amount_msat,
                ),
                Err(failure) => res matches Err(e) && e@ == failure,
            },
    {
        let user_id = match event.receiver_user_id {
            Some(user_id) => user_id,
            None => match metadata {
                Some(MetadataUser::User(user_id)) => user_id,
                Some(MetadataUser::Missing) => {
                    return Err(AppError::Generic(String::from_str("Invalid metadata format")));
                },
                Some(MetadataUser::Unparsable) => {
                    return Err(AppError::Generic(String::from_str("Failed to parse metadata")));
                },
                None => {
                    return Err(
                        AppError::Generic(String::from_str("No user ID found in payment event")),
                    );
                },
            },
        };
        Ok(
            InboundCredit {
                user_id,
                txid: join("inbound_", event.payment_hash.as_str()),
                amount_sats: (event.amount_msat / 1000) as i64,
            },
        )
    }

    /// The credit for an inbound payment: the receiver is the one the
    /// event names, else the one in the integer field `user_id` of the
    /// event's metadata, and is credited the whole satoshis of the
    /// amount. Fails with `Generic` where no receiver is named.
    pub fn process_inbound_payment(&self, event: &InboundPaymentEvent) -> (res: Result<
        InboundCredit,
        AppError,
    >)
        ensures
            match receiver_of(
                event.receiver_user_id,
                event_metadata_user(text_of(event.metadata)),
            ) {
                Ok(user_id) => res matches Ok(credit) && credit@ == credit_of(
                    user_id,
                    event.payment_hash@,
                    event.amount_msat,
                ),
                Err(failure) => res matches Err(e) && e@ == failure,
            },
    {
        let metadata = match &event.metadata {
            Some(text) => Some(InboundPaymentHandler::metadata_user(text.as_str())),
            None => None,
        };
        InboundPaymentHandler::credit_for(event, metadata)
    }

    /// The event for a payment that a webhook reported at `now`: the
    /// receiver is left to the metadata.
    pub fn handle_payment_webhook(
        &self,
        payment_hash: String,
        amount_msat: u64,
        metadata: Option<String>,
        now: i64,
    ) -> (res: InboundPaymentEvent)
        ensures
            res.payment_hash@ == payment_hash@,
            res.amount_msat == amount_msat,
            res.receiver_user_id is None,
            text_of(res.metadata) == text_of(metadata),
            res.timestamp == now,
    {
        InboundPaymentEvent {
            payment_hash,
            amount_msat,
            receiver_user_id: None,
            metadata,
            timestamp: now,
        }
    }
}

} // verus!
