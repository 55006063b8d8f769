//! The on-chain transfer between two tenants, as a sequence of decisions.
//!
//! The transfer needs the addresses of both tenants, the sender's balance
//! as the chain shows it, the wallet's broadcast and two ledger rows. The
//! caller does each of these and reports the answer; what is done next,
//! and how the transfer ends, is decided here.
//!
//! A transaction that the wallet accepted for broadcast cannot be taken
//! back. The two ledger rows that follow are therefore written on a
//! best-effort basis: a row that cannot be written does not fail the
//! transfer, and has to be reconciled from the chain.

use crate::virtual_balance::BalanceError;
use crate::virtual_balance::BalanceFailure;
use crate::virtual_balance::VirtualBalanceManager;
use crate::virtual_channel::texts;
use vstd::prelude::*;

verus! {

/// The fee rate of a transfer, in satoshis per virtual byte, where none
/// is configured.
pub const DEFAULT_FEE_RATE: u64 = 25;

/// What a transfer is waiting for.
#[derive(Debug)]
pub enum TransferStep {
    /// The addresses of the sender.
    SenderAddresses,
    /// The addresses of the receiver.
    ReceiverAddresses,
    /// The sender's balance as the chain shows it.
    SenderBalance { receiver_address: String },
    /// The wallet's answer to the broadcast.
    Broadcast { receiver_address: String },
    /// The ledger row of the sender.
    SenderRecord { txid: String },
    /// The ledger row of the receiver.
    ReceiverRecord { txid: String },
    /// Nothing: the transfer has ended.
    Finished,
}

/// What a step says.
pub enum StepModel {
    SenderAddresses,
    ReceiverAddresses,
    SenderBalance { receiver_address: Seq<char> },
    Broadcast { receiver_address: Seq<char> },
    SenderRecord { txid: Seq<char> },
    ReceiverRecord { txid: Seq<char> },
    Finished,
}

impl View for TransferStep {
    type V = StepModel;

    open spec fn view(&self) -> StepModel {
        match self {
            TransferStep::SenderAddresses => StepModel::SenderAddresses,
            TransferStep::ReceiverAddresses => StepModel::ReceiverAddresses,
            TransferStep::SenderBalance { receiver_address } => StepModel::SenderBalance {
                receiver_address: receiver_address@,
            },
            TransferStep::Broadcast { receiver_address } => StepModel::Broadcast {
                receiver_address: receiver_address@,
            },
            TransferStep::SenderRecord { txid } => StepModel::SenderRecord { txid: txid@ },
            TransferStep::ReceiverRecord { txid } => StepModel::ReceiverRecord { txid: txid@ },
            TransferStep::Finished => StepModel::Finished,
        }
    }
}

/// A transfer in progress.
#[derive(Debug)]
pub struct VirtualTransfer {
    from_user_id: i64,
    to_user_id: i64,
    amount_sats: u64,
    fee_rate: u64,
    step: TransferStep,
}

/// What a transfer in progress says.
pub struct TransferModel {
    pub from_user_id: i64,
    pub to_user_id: i64,
    pub amount_sats: u64,
    pub fee_rate: u64,
    pub step: StepModel,
}

impl View for VirtualTransfer {
    type V = TransferModel;

    closed spec fn view(&self) -> TransferModel {
        TransferModel {
            from_user_id: self.from_user_id,
            to_user_id: self.to_user_id,
            amount_sats: self.amount_sats,
            fee_rate: self.fee_rate,
            step: self.step@,
        }
    }
}

/// What the caller reports.
#[derive(Debug)]
pub enum TransferEvent {
    /// The addresses of a tenant, newest first, or why they could not be
    /// read.
    Addresses(Result<Vec<String>, String>),
    /// The sender's balance, or why it could not be read.
    Balance(Result<i64, String>),
    /// The identifier of the transaction that the wallet accepted, or
    /// why it did not accept it.
    Broadcast(Result<String, String>),
    /// Whether a ledger row was written.
    Recorded(Result<(), String>),
}

/// What an event says.
pub enum EventModel {
    Addresses(Result<Seq<Seq<char>>, Seq<char>>),
    Balance(Result<i64, Seq<char>>),
    Broadcast(Result<Seq<char>, Seq<char>>),
    Recorded(bool),
}

impl View for TransferEvent {
    type V = EventModel;

    open spec fn view(&self) -> EventModel {
        match self {
            TransferEvent::Addresses(Ok(list)) => EventModel::Addresses(Ok(texts(list@))),
            TransferEvent::Addresses(Err(e)) => EventModel::Addresses(Err(e@)),
            TransferEvent::Balance(Ok(balance)) => EventModel::Balance(Ok(*balance)),
            TransferEvent::Balance(Err(e)) => EventModel::Balance(Err(e@)),
            TransferEvent::Broadcast(Ok(txid)) => EventModel::Broadcast(Ok(txid@)),
            TransferEvent::Broadcast(Err(e)) => EventModel::Broadcast(Err(e@)),
            TransferEvent::Recorded(res) => EventModel::Recorded(res is Ok),
        }
    }
}

/// What the caller is to do next.
#[derive(Debug)]
pub enum TransferAction {
    /// Read the addresses of `user_id`.
    LookupAddresses { user_id: i64 },
    /// Read the balance of `user_id` as the chain shows it.
    QueryBalance { user_id: i64 },
    /// Have the wallet send `amount_sats` to `address`.
    SendBtc { address: String, amount_sats: u64, fee_rate: u64, skip_sync: bool },
    /// Write the ledger row of `user_id` for the transaction `txid`.
    RecordTransaction { user_id: i64, txid: String, amount: i64 },
    /// Stop: the transfer has ended with this result.
    Finish(Result<String, BalanceError>),
}

/// What an action says.
pub enum ActionModel {
    LookupAddresses { user_id: i64 },
    QueryBalance { user_id: i64 },
    SendBtc { address: Seq<char>, amount_sats: u64, fee_rate: u64, skip_sync: bool },
    RecordTransaction { user_id: i64, txid: Seq<char>, amount: i64 },
    Finish(Result<Seq<char>, BalanceFailure>),
}

impl View for TransferAction {
    type V = ActionModel;

    open spec fn view(&self) -> ActionModel {
        match self {
            TransferAction::LookupAddresses { user_id } => ActionModel::LookupAddresses {
                user_id: *user_id,
            },
            TransferAction::QueryBalance { user_id } => ActionModel::QueryBalance {
                user_id: *user_id,
            },
            TransferAction::SendBtc {
                address,
                amount_sats,
                fee_rate,
                skip_sync,
            } => ActionModel::SendBtc {
                address: address@,
                amount_sats: *amount_sats,
                fee_rate: *fee_rate,
                skip_sync: *skip_sync,
            },
            TransferAction::RecordTransaction { user_id, txid, amount } => ActionModel::RecordTransaction {
                user_id: *user_id,
                txid: txid@,
                amount: *amount,
            },
            TransferAction::Finish(Ok(txid)) => ActionModel::Finish(Ok(txid@)),
            TransferAction::Finish(Err(e)) => ActionModel::Finish(Err(e@)),
        }
    }
}

/// The balance that counts: a balance below zero counts as zero.
pub open spec fn spendable(balance: i64) -> u64 {
    if balance < 0 {
        0
    } else {
        balance as u64
    }
}

impl TransferModel {
    /// From the broadcast on, the amount is one that the sender's
    /// balance covered, so it has a negative.
    pub open spec fn wf(self) -> bool {
        match self.step {
            StepModel::Broadcast { .. } | StepModel::SenderRecord { .. } | StepModel::ReceiverRecord {
                ..
            } => self.amount_sats <= i64::MAX,
            _ => true,
        }
    }

    /// The same transfer at another step.
    pub open spec fn at(self, step: StepModel) -> TransferModel {
        TransferModel { step, ..self }
    }

    /// The transfer ended with an error.
    pub open spec fn failed(self, failure: BalanceFailure) -> (TransferModel, ActionModel) {
        (self.at(StepModel::Finished), ActionModel::Finish(Err(failure)))
    }

    /// How the transfer goes on after an event.
    ///
    /// The sender's addresses are read first and must not be empty, then
    /// the receiver's, whose first address receives. The sender's
    /// balance must cover the amount, else the transfer ends with
    /// `InsufficientBtc`. The wallet then sends. If it refuses, the
    /// transfer ends with `OnchainBroadcast` and no row is written. If
    /// it accepts, the sender's row and the receiver's row are written,
    /// and the transfer ends with the transaction's identifier whether
    /// or not the rows could be written. An answer that a step does not
    /// wait for ends the transfer with a `Database` failure.
    pub open spec fn next(self, event: EventModel) -> (TransferModel, ActionModel) {
        match (self.step, event) {
            (StepModel::SenderAddresses, EventModel::Addresses(Err(e))) => self.failed(
                BalanceFailure::Database(e),
            ),
            (StepModel::SenderAddresses, EventModel::Addresses(Ok(list))) => if list.len() == 0 {
                self.failed(BalanceFailure::Database("Sender has no Bitcoin addresses"@))
            } else {
                (
                    self.at(StepModel::ReceiverAddresses),
                    ActionModel::LookupAddresses { user_id: self.to_user_id },
                )
            },
            (StepModel::ReceiverAddresses, EventModel::Addresses(Err(e))) => self.failed(
                BalanceFailure::Database(e),
            ),
            (StepModel::ReceiverAddresses, EventModel::Addresses(Ok(list))) => if list.len() == 0 {
                self.failed(BalanceFailure::Database("Receiver has no Bitcoin addresses"@))
            } else {
                (
                    self.at(StepModel::SenderBalance { receiver_address: list[0] }),
                    ActionModel::QueryBalance { user_id: self.from_user_id },
                )
            },
            (StepModel::SenderBalance { receiver_address }, EventModel::Balance(Err(e))) => self.failed(
                BalanceFailure::Database(e),
            ),
            (
                StepModel::SenderBalance { receiver_address },
                EventModel::Balance(Ok(balance)),
            ) => if spendable(balance) < self.amount_sats {
                self.failed(
                    BalanceFailure::InsufficientBtc {
                        required: self.amount_sats,
                        available: spendable(balance),
                    },
                )
            } else {
                (
                    self.at(StepModel::Broadcast { receiver_address }),
                    ActionModel::SendBtc {
                        address: receiver_address,
                        amount_sats: self.amount_sats,
                        fee_rate: self.fee_rate,
                        skip_sync: false,
                    },
                )
            },
            (StepModel::Broadcast { receiver_address }, EventModel::Broadcast(Err(e))) => self.failed(
                BalanceFailure::OnchainBroadcast(e),
            ),
            (StepModel::Broadcast { receiver_address }, EventModel::Broadcast(Ok(txid))) => (
                self.at(StepModel::SenderRecord { txid }),
                ActionModel::RecordTransaction {
                    user_id: self.from_user_id,
                    txid,
                    amount: (-(self.amount_sats as int)) as i64,
                },
            ),
            (StepModel::SenderRecord { txid }, EventModel::Recorded(_)) => (
                self.at(StepModel::ReceiverRecord { txid }),
                ActionModel::RecordTransaction {
                    user_id: self.to_user_id,
                    txid,
                    amount: self.amount_sats as i64,
                },
            ),
            (StepModel::ReceiverRecord { txid }, EventModel::Recorded(_)) => (
                self.at(StepModel::Finished),
                ActionModel::Finish(Ok(txid)),
            ),
            _ => self.failed(BalanceFailure::Database("Unexpected answer"@)),
        }
    }
}

/// Once the wallet accepted the transaction, the transfer ends with its
/// identifier: no answer about a ledger row turns it into a failure.
pub proof fn lemma_broadcast_is_final(
    transfer: TransferModel,
    txid: Seq<char>,
    sender_recorded: bool,
    receiver_recorded: bool,
)
    requires
        transfer.step is Broadcast,
    ensures
        ({
            let (after_broadcast, first) = transfer.next(EventModel::Broadcast(Ok(txid)));
            let (after_sender, second) = after_broadcast.next(
                EventModel::Recorded(sender_recorded),
            );
            let (after_receiver, last) = after_sender.next(EventModel::Recorded(receiver_recorded));
            &&& first is RecordTransaction
            &&& second is RecordTransaction
            &&& last == ActionModel::Finish(Ok(txid))
            &&& after_receiver.step is Finished
        }),
{
}

/// Nothing is sent that the sender's balance does not cover, and a
/// refused broadcast writes no row.
pub proof fn lemma_transfer_guards(transfer: TransferModel, event: EventModel)
    ensures
        transfer.next(event).1 matches ActionModel::SendBtc { amount_sats, .. } ==> {
            &&& event matches EventModel::Balance(Ok(balance))
            &&& spendable(balance) >= amount_sats
            &&& amount_sats == transfer.amount_sats
        },
        transfer.step is Broadcast ==> (event matches EventModel::Broadcast(Err(e))
            ==> transfer.next(event).1 == ActionModel::Finish(
            Err(BalanceFailure::OnchainBroadcast(e)),
        )),
        transfer.wf() ==> transfer.next(event).0.wf(),
{
}

impl VirtualTransfer {
    /// Whether the transfer is in a state that `next` produces.
    pub open spec fn wf(&self) -> bool {
        self@.wf()
    }

    /// Whether the transfer has ended.
    pub fn is_finished(&self) -> (res: bool)
        ensures
            res == self@.step is Finished,
    {
        match self.step {
            TransferStep::Finished => true,
            _ => false,
        }
    }

    /// Whether the transfer is in a state that `next` produces.
    pub fn is_well_formed(&self) -> (res: bool)
        ensures
            res == self.wf(),
    {
        match self.step {
            TransferStep::Broadcast { .. } | TransferStep::SenderRecord { .. } | TransferStep::ReceiverRecord {
                ..
            } => self.amount_sats <= 0x7fff_ffff_ffff_ffff,
            _ => true,
        }
    }
}

impl VirtualBalanceManager {
    /// Begins the transfer of `amount_sats` from one tenant to another:
    /// the first thing to do is to read the sender's addresses.
    pub fn begin_virtual_transfer(
        from_user_id: i64,
        to_user_id: i64,
        amount_sats: u64,
        fee_rate: u64,
    ) -> (res: (VirtualTransfer, TransferAction))
        ensures
            res.0.wf(),
            res.0@ == (TransferModel {
                from_user_id,
                to_user_id,
                amount_sats,
                fee_rate,
                step: StepModel::SenderAddresses,
            }),
            res.1@ == (ActionModel::LookupAddresses { user_id: from_user_id }),
    {
        (
            VirtualTransfer {
                from_user_id,
                to_user_id,
                amount_sats,
                fee_rate,
                step: TransferStep::SenderAddresses,
            },
            TransferAction::LookupAddresses { user_id: from_user_id },
        )
    }

    /// Takes the transfer one step further: given what the caller
    /// reports, says what the transfer waits for now and what the caller
    /// is to do next, as `TransferModel::next` has it.
    pub fn execute_virtual_transfer(transfer: VirtualTransfer, event: TransferEvent) -> (res: (
        VirtualTransfer,
        TransferAction,
    ))
        requires
            transfer.wf(),
        ensures
            res.0.wf(),
            (res.0@, res.1@) == transfer@.next(event@),
    {
        let VirtualTransfer { from_user_id, to_user_id, amount_sats, fee_rate, step } = transfer;
        let (step, action) = match (step, event) {
            (TransferStep::SenderAddresses, TransferEvent::Addresses(Err(e))) => (
                TransferStep::Finished,
                TransferAction::Finish(Err(BalanceError::Database(e))),
            ),
            (TransferStep::SenderAddresses, TransferEvent::Addresses(Ok(list))) => {
                if list.len() == 0 {
                    (
                        TransferStep::Finished,
                        TransferAction::Finish(
                            Err(
                                BalanceError::Database(
                                    String::from_str("Sender has no Bitcoin addresses"),
                                ),
                            ),
                        ),
                    )
                } else {
                    (
                        TransferStep::ReceiverAddresses,
                        TransferAction::LookupAddresses { user_id: to_user_id },
                    )
                }
            },
            (TransferStep::ReceiverAddresses, TransferEvent::Addresses(Err(e))) => (
                TransferStep::Finished,
                TransferAction::Finish(Err(BalanceError::Database(e))),
            ),
            (TransferStep::ReceiverAddresses, TransferEvent::Addresses(Ok(list))) => {
                if list.len() == 0 {
                    (
                        TransferStep::Finished,
                        TransferAction::Finish(
                            Err(
                                BalanceError::Database(
                                    String::from_str("Receiver has no Bitcoin addresses"),
                                ),
                            ),
                        ),
                    )
                } else {
                    (
                        TransferStep::SenderBalance { receiver_address: list[0].clone() },
                        TransferAction::QueryBalance { user_id: from_user_id },
                    )
                }
            },
            (TransferStep::SenderBalance { receiver_address }, TransferEvent::Balance(Err(e))) => (
                TransferStep::Finished,
                TransferAction::Finish(Err(BalanceError::Database(e))),
            ),
            (
                TransferStep::SenderBalance { receiver_address },
                TransferEvent::Balance(Ok(balance)),
            ) => {
                let available: u64 = if balance < 0 {
                    0
                } else {
                    balance as u64
                };
                if available < amount_sats {
                    (
                        TransferStep::Finished,
                        TransferAction::Finish(
                            Err(
                                BalanceError::InsufficientBtc {
                                    required: amount_sats,
                                    available,
                                },
                            ),
                        ),
                    )
                } else {
                    let address = receiver_address.clone();
                    (
                        TransferStep::Broadcast { receiver_address },
                        TransferAction::SendBtc { address, amount_sats, fee_rate, skip_sync: false },
                    )
                }
            },
            (TransferStep::Broadcast { receiver_address }, TransferEvent::Broadcast(Err(e))) => (
                TransferStep::Finished,
                TransferAction::Finish(Err(BalanceError::OnchainBroadcast(e))),
            ),
            (TransferStep::Broadcast { receiver_address }, TransferEvent::Broadcast(Ok(txid))) => {
                let row_txid = txid.clone();
                (
                    TransferStep::SenderRecord { txid },
                    TransferAction::RecordTransaction {
                        user_id: from_user_id,
                        txid: row_txid,
                        amount: -(amount_sats as i64),
                    },
                )
            },
            (TransferStep::SenderRecord { txid }, TransferEvent::Recorded(_)) => {
                let row_txid = txid.clone();
                (
                    TransferStep::ReceiverRecord { txid },
                    TransferAction::RecordTransaction {
                        user_id: to_user_id,
                        txid: row_txid,
                        amount: amount_sats as i64,
                    },
                )
            },
            (TransferStep::ReceiverRecord { txid }, TransferEvent::Recorded(_)) => (
                TransferStep::Finished,
                TransferAction::Finish(Ok(txid)),
            ),
            _ => (
                TransferStep::Finished,
                TransferAction::Finish(
                    Err(BalanceError::Database(String::from_str("Unexpected answer"))),
                ),
            ),
        };
        (VirtualTransfer { from_user_id, to_user_id, amount_sats, fee_rate, step }, action)
    }
}

} // verus!
