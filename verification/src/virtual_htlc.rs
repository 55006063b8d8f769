//! The HTLC settlement ledger: in-flight payments between virtual nodes,
//! each settled at most once, with both asset legs in one step.
//!
//! An entry is created `Pending`. It becomes `Settled` when a preimage is
//! shown whose digest is the payment hash, or `Failed` when the payment is
//! reported as failed. Both are final.
//!
//! Entries are kept after they were settled or failed, so a payment hash
//! is never used twice. Settling looks for a pending entry only: for a
//! payment that was settled or failed before it answers `HtlcNotFound`,
//! as it does for one that never existed.

use crate::crypto::bitcoin_sha256;
use crate::crypto::bitcoin_sha256_digest;
use crate::table::has_key;
use crate::table::lemma_absent;
use crate::table::lemma_index_of;
use crate::table::lemma_put;
use crate::table::lemma_put_replaces;
use crate::table::lookup;
use crate::table::put;
use crate::table::row_at;
use crate::table::unique_keys;
use crate::table::Keyed;
use crate::types::hex_encode;
use crate::types::ContractId;
use crate::types::PaymentHash;
use crate::types::PaymentPreimage;
use crate::types::PublicKey;
use crate::virtual_channel::PaymentDirection;
use crate::virtual_channel::PaymentRow;
use crate::virtual_channel::VirtualChannelManager;
use vstd::prelude::*;

verus! {

/// Where an HTLC stands in its life.
#[derive(Clone, Copy, Debug, PartialEq, Eq, Structural)]
pub enum VirtualHtlcStatus {
    Pending,
    Settled,
    Failed,
}

/// The token leg of a payment.
#[derive(Clone, Debug)]
pub struct RgbTransfer {
    pub contract_id: ContractId,
    pub amount: u64,
}

/// What a token leg says.
pub struct TransferModel {
    pub contract_id: Seq<char>,
    pub amount: u64,
}

impl View for RgbTransfer {
    type V = TransferModel;

    open spec fn view(&self) -> TransferModel {
        TransferModel { contract_id: self.contract_id@, amount: self.amount }
    }
}

impl RgbTransfer {
    /// A copy that says the same.
    pub fn duplicate(&self) -> (res: RgbTransfer)
        ensures
            res@ == self@,
    {
        RgbTransfer { contract_id: self.contract_id.duplicate(), amount: self.amount }
    }
}

/// What an optional token leg says.
pub open spec fn transfer_model(transfer: Option<RgbTransfer>) -> Option<TransferModel> {
    match transfer {
        Some(t) => Some(t@),
        None => None,
    }
}

/// A copy of an optional token leg that says the same.
pub fn duplicate_transfer(transfer: &Option<RgbTransfer>) -> (res: Option<RgbTransfer>)
    ensures
        transfer_model(res) == transfer_model(*transfer),
{
    match transfer {
        Some(t) => Some(t.duplicate()),
        None => None,
    }
}

/// An in-flight payment between two virtual nodes, with a currency leg
/// and, optionally, a token leg.
#[derive(Clone, Debug)]
pub struct VirtualHtlc {
    pub payment_hash: PaymentHash,
    pub from_virtual_node: PublicKey,
    pub to_virtual_node: PublicKey,
    pub btc_amount_msat: u64,
    pub rgb_transfer: Option<RgbTransfer>,
    pub status: VirtualHtlcStatus,
}

/// What an HTLC says.
pub struct HtlcModel {
    pub payment_hash: Seq<u8>,
    pub from_virtual_node: Seq<u8>,
    pub to_virtual_node: Seq<u8>,
    pub btc_amount_msat: u64,
    pub rgb_transfer: Option<TransferModel>,
    pub status: VirtualHtlcStatus,
}

impl View for VirtualHtlc {
    type V = HtlcModel;

    open spec fn view(&self) -> HtlcModel {
        HtlcModel {
            payment_hash: self.payment_hash@,
            from_virtual_node: self.from_virtual_node@,
            to_virtual_node: self.to_virtual_node@,
            btc_amount_msat: self.btc_amount_msat,
            rgb_transfer: transfer_model(self.rgb_transfer),
            status: self.status,
        }
    }
}

impl Keyed for HtlcModel {
    type Key = Seq<u8>;

    open spec fn key(&self) -> Seq<u8> {
        self.payment_hash
    }
}

impl HtlcModel {
    /// The same HTLC in another status.
    pub open spec fn with_status(self, status: VirtualHtlcStatus) -> HtlcModel {
        HtlcModel { status, ..self }
    }

    /// Whether `node` is one of the two parties.
    pub open spec fn touches(self, node: Seq<u8>) -> bool {
        self.from_virtual_node == node || self.to_virtual_node == node
    }
}

impl VirtualHtlc {
    /// A copy that says the same.
    pub fn duplicate(&self) -> (res: VirtualHtlc)
        ensures
            res@ == self@,
    {
        VirtualHtlc {
            payment_hash: self.payment_hash,
            from_virtual_node: self.from_virtual_node,
            to_virtual_node: self.to_virtual_node,
            btc_amount_msat: self.btc_amount_msat,
            rgb_transfer: duplicate_transfer(&self.rgb_transfer),
            status: self.status,
        }
    }
}

/// The record of one settled HTLC: what moved, from whom, to whom.
#[derive(Clone, Debug)]
pub struct VirtualSettlement {
    pub payment_hash: PaymentHash,
    pub preimage: PaymentPreimage,
    pub btc_settled: u64,
    pub rgb_settled: Option<RgbTransfer>,
    pub from_virtual_node: PublicKey,
    pub to_virtual_node: PublicKey,
}

/// What a settlement says.
pub struct SettlementModel {
    pub payment_hash: Seq<u8>,
    pub preimage: Seq<u8>,
    pub btc_settled: u64,
    pub rgb_settled: Option<TransferModel>,
    pub from_virtual_node: Seq<u8>,
    pub to_virtual_node: Seq<u8>,
}

impl View for VirtualSettlement {
    type V = SettlementModel;

    open spec fn view(&self) -> SettlementModel {
        SettlementModel {
            payment_hash: self.payment_hash@,
            preimage: self.preimage@,
            btc_settled: self.btc_settled,
            rgb_settled: transfer_model(self.rgb_settled),
            from_virtual_node: self.from_virtual_node@,
            to_virtual_node: self.to_virtual_node@,
        }
    }
}

impl VirtualSettlement {
    /// Whether a token leg was settled.
    pub fn has_rgb_transfer(&self) -> (res: bool)
        ensures
            res == self@.rgb_settled is Some,
    {
        self.rgb_settled.is_some()
    }

    /// The contract of the token leg, if there is one.
    pub fn rgb_contract_id(&self) -> (res: Option<ContractId>)
        ensures
            res is Some <==> self@.rgb_settled is Some,
            res matches Some(id) ==> id@ == self@.rgb_settled->0.contract_id,
    {
        match &self.rgb_settled {
            Some(t) => Some(t.contract_id.duplicate()),
            None => None,
        }
    }

    /// The amount of the token leg, if there is one.
    pub fn rgb_amount(&self) -> (res: Option<u64>)
        ensures
            res is Some <==> self@.rgb_settled is Some,
            res matches Some(amount) ==> amount == self@.rgb_settled->0.amount,
    {
        match &self.rgb_settled {
            Some(t) => Some(t.amount),
            None => None,
        }
    }

    /// A copy that says the same.
    pub fn duplicate(&self) -> (res: VirtualSettlement)
        ensures
            res@ == self@,
    {
        VirtualSettlement {
            payment_hash: self.payment_hash,
            preimage: self.preimage,
            btc_settled: self.btc_settled,
            rgb_settled: duplicate_transfer(&self.rgb_settled),
            from_virtual_node: self.from_virtual_node,
            to_virtual_node: self.to_virtual_node,
        }
    }
}

/// Why an operation on the ledger failed.
#[derive(Debug)]
pub enum VirtualHtlcError {
    /// No pending entry has the payment hash.
    HtlcNotFound,
    /// The digest of the preimage is not the payment hash.
    InvalidPreimage,
    /// The durable store failed.
    Database(String),
    /// The sender cannot cover the payment.
    InsufficientBalance,
    /// An entry with the payment hash exists already.
    DuplicatePaymentHash,
}

impl VirtualHtlcError {
    /// The error in words.
    pub open spec fn spec_message(&self) -> Seq<char> {
        match self {
            VirtualHtlcError::HtlcNotFound => "HTLC not found"@,
            VirtualHtlcError::InvalidPreimage => "Invalid preimage"@,
            VirtualHtlcError::Database(detail) => "Database error: "@ + detail@,
            VirtualHtlcError::InsufficientBalance => "Insufficient balance"@,
            VirtualHtlcError::DuplicatePaymentHash => "Duplicate payment hash"@,
        }
    }

    /// The error in words.
    pub fn message(&self) -> (res: String)
        ensures
            res@ == self.spec_message(),
    {
        match self {
            VirtualHtlcError::HtlcNotFound => String::from_str("HTLC not found"),
            VirtualHtlcError::InvalidPreimage => String::from_str("Invalid preimage"),
            VirtualHtlcError::Database(detail) => String::from_str("Database error: ").concat(
                detail.as_str(),
            ),
            VirtualHtlcError::InsufficientBalance => String::from_str("Insufficient balance"),
            VirtualHtlcError::DuplicatePaymentHash => String::from_str("Duplicate payment hash"),
        }
    }
}

/// The entry made for a new payment.
pub open spec fn pending_htlc(
    payment_hash: Seq<u8>,
    from: Seq<u8>,
    to: Seq<u8>,
    btc_amount_msat: u64,
    rgb_transfer: Option<TransferModel>,
) -> HtlcModel {
    HtlcModel {
        payment_hash,
        from_virtual_node: from,
        to_virtual_node: to,
        btc_amount_msat,
        rgb_transfer,
        status: VirtualHtlcStatus::Pending,
    }
}

/// The ownership row that a new payment gives to one of its parties.
pub open spec fn htlc_row(payment_hash: Seq<u8>, owner: Seq<u8>, inbound: bool) -> PaymentRow {
    PaymentRow {
        payment_hash: hex_encode(payment_hash),
        owner_identity: hex_encode(owner),
        tenant_id: hex_encode(owner),
        direction: if inbound {
            PaymentDirection::Inbound
        } else {
            PaymentDirection::Outbound
        },
    }
}

/// The payment rows after a new payment was registered: one outbound row
/// for the sender, then one inbound row for the receiver.
pub open spec fn with_htlc_rows(
    rows: Seq<PaymentRow>,
    payment_hash: Seq<u8>,
    from: Seq<u8>,
    to: Seq<u8>,
) -> Seq<PaymentRow> {
    put(put(rows, htlc_row(payment_hash, from, false)), htlc_row(payment_hash, to, true))
}

/// Whether the entry for `payment_hash` exists and is pending.
pub open spec fn is_pending(htlcs: Seq<HtlcModel>, payment_hash: Seq<u8>) -> bool {
    lookup(htlcs, payment_hash) matches Some(htlc) && htlc.status == VirtualHtlcStatus::Pending
}

/// The record of settling `htlc` with `preimage`.
pub open spec fn settlement_of(htlc: HtlcModel, preimage: Seq<u8>) -> SettlementModel {
    SettlementModel {
        payment_hash: htlc.payment_hash,
        preimage,
        btc_settled: htlc.btc_amount_msat,
        rgb_settled: htlc.rgb_transfer,
        from_virtual_node: htlc.from_virtual_node,
        to_virtual_node: htlc.to_virtual_node,
    }
}

/// What settling returns, given the digest of the preimage: the
/// settlement where the entry is pending and the digest is the payment
/// hash; `HtlcNotFound` where no pending entry exists; `InvalidPreimage`
/// where one exists and the digest differs.
pub open spec fn settle_result(
    htlcs: Seq<HtlcModel>,
    payment_hash: Seq<u8>,
    preimage: Seq<u8>,
    digest: Seq<u8>,
) -> Result<SettlementModel, VirtualHtlcError> {
    if !is_pending(htlcs, payment_hash) {
        Err(VirtualHtlcError::HtlcNotFound)
    } else if digest != payment_hash {
        Err(VirtualHtlcError::InvalidPreimage)
    } else {
        Ok(settlement_of(lookup(htlcs, payment_hash)->0, preimage))
    }
}

/// The table after settling: the entry is `Settled` where settling
/// succeeds, and nothing changes where it fails.
pub open spec fn settle_table(htlcs: Seq<HtlcModel>, payment_hash: Seq<u8>, digest: Seq<u8>) -> Seq<
    HtlcModel,
> {
    if is_pending(htlcs, payment_hash) && digest == payment_hash {
        put(htlcs, lookup(htlcs, payment_hash)->0.with_status(VirtualHtlcStatus::Settled))
    } else {
        htlcs
    }
}

/// The table after a failure was reported: a pending entry is `Failed`,
/// and nothing else changes.
pub open spec fn fail_table(htlcs: Seq<HtlcModel>, payment_hash: Seq<u8>) -> Seq<HtlcModel> {
    if is_pending(htlcs, payment_hash) {
        put(htlcs, lookup(htlcs, payment_hash)->0.with_status(VirtualHtlcStatus::Failed))
    } else {
        htlcs
    }
}

/// The pending entries that `node` is a party of, oldest first.
pub open spec fn pending_for(htlcs: Seq<HtlcModel>, node: Seq<u8>) -> Seq<HtlcModel>
    decreases htlcs.len(),
{
    if htlcs.len() == 0 {
        Seq::empty()
    } else if htlcs.last().status == VirtualHtlcStatus::Pending && htlcs.last().touches(node) {
        pending_for(htlcs.drop_last(), node).push(htlcs.last())
    } else {
        pending_for(htlcs.drop_last(), node)
    }
}

/// What one entry holds back of the currency of `node`: its amount
/// where it is pending and `node` is its sender, else nothing.
pub open spec fn btc_claim(htlc: HtlcModel, node: Seq<u8>) -> nat {
    if htlc.status == VirtualHtlcStatus::Pending && htlc.from_virtual_node == node {
        htlc.btc_amount_msat as nat
    } else {
        0
    }
}

/// What one entry holds back of the tokens of `node` under
/// `contract_id`.
pub open spec fn rgb_claim(htlc: HtlcModel, node: Seq<u8>, contract_id: Seq<char>) -> nat {
    if htlc.status == VirtualHtlcStatus::Pending && htlc.from_virtual_node == node {
        match htlc.rgb_transfer {
            Some(t) => if t.contract_id == contract_id {
                t.amount as nat
            } else {
                0
            },
            None => 0,
        }
    } else {
        0
    }
}

/// What the pending entries hold back of the currency of `node`.
pub open spec fn pending_btc(htlcs: Seq<HtlcModel>, node: Seq<u8>) -> nat
    decreases htlcs.len(),
{
    if htlcs.len() == 0 {
        0
    } else {
        pending_btc(htlcs.drop_last(), node) + btc_claim(htlcs.last(), node)
    }
}

/// What the pending entries hold back of the tokens of `node` under
/// `contract_id`.
pub open spec fn pending_rgb(htlcs: Seq<HtlcModel>, node: Seq<u8>, contract_id: Seq<char>) -> nat
    decreases htlcs.len(),
{
    if htlcs.len() == 0 {
        0
    } else {
        pending_rgb(htlcs.drop_last(), node, contract_id) + rgb_claim(
            htlcs.last(),
            node,
            contract_id,
        )
    }
}

/// Replacing one entry changes what is held back by the difference
/// between the old entry's claim and the new one's.
pub proof fn lemma_pending_update(
    htlcs: Seq<HtlcModel>,
    i: int,
    htlc: HtlcModel,
    node: Seq<u8>,
    contract_id: Seq<char>,
)
    requires
        0 <= i < htlcs.len(),
    ensures
        pending_btc(htlcs.update(i, htlc), node) + btc_claim(htlcs[i], node) == pending_btc(
            htlcs,
            node,
        ) + btc_claim(htlc, node),
        pending_rgb(htlcs.update(i, htlc), node, contract_id) + rgb_claim(
            htlcs[i],
            node,
            contract_id,
        ) == pending_rgb(htlcs, node, contract_id) + rgb_claim(htlc, node, contract_id),
    decreases htlcs.len(),
{
    let after = htlcs.update(i, htlc);
    if i == htlcs.len() - 1 {
        assert(after.drop_last() =~= htlcs.drop_last());
        assert(after.last() == htlc);
    } else {
        assert(after.drop_last() =~= htlcs.drop_last().update(i, htlc));
        assert(after.last() == htlcs.last());
        assert(htlcs.drop_last()[i] == htlcs[i]);
        lemma_pending_update(htlcs.drop_last(), i, htlc, node, contract_id);
    }
}

/// One entry never holds back more than all entries together.
pub proof fn lemma_pending_bounds(
    htlcs: Seq<HtlcModel>,
    i: int,
    node: Seq<u8>,
    contract_id: Seq<char>,
)
    requires
        0 <= i < htlcs.len(),
    ensures
        btc_claim(htlcs[i], node) <= pending_btc(htlcs, node),
        rgb_claim(htlcs[i], node, contract_id) <= pending_rgb(htlcs, node, contract_id),
    decreases htlcs.len(),
{
    if i < htlcs.len() - 1 {
        assert(htlcs.drop_last()[i] == htlcs[i]);
        lemma_pending_bounds(htlcs.drop_last(), i, node, contract_id);
    }
}

/// A new entry adds its claim to what is held back.
pub proof fn lemma_pending_push(
    htlcs: Seq<HtlcModel>,
    htlc: HtlcModel,
    node: Seq<u8>,
    contract_id: Seq<char>,
)
    ensures
        pending_btc(htlcs.push(htlc), node) == pending_btc(htlcs, node) + btc_claim(htlc, node),
        pending_rgb(htlcs.push(htlc), node, contract_id) == pending_rgb(htlcs, node, contract_id)
            + rgb_claim(htlc, node, contract_id),
{
    assert(htlcs.push(htlc).drop_last() =~= htlcs);
    assert(htlcs.push(htlc).last() == htlc);
}

/// What a list of HTLCs says.
pub open spec fn htlc_models(list: Seq<VirtualHtlc>) -> Seq<HtlcModel> {
    list.map_values(|h: VirtualHtlc| h@)
}

/// A wrong preimage changes nothing: the entry stays pending, and the
/// right preimage still settles it afterwards.
pub proof fn lemma_wrong_preimage_keeps_pending(
    htlcs: Seq<HtlcModel>,
    payment_hash: Seq<u8>,
    wrong_preimage: Seq<u8>,
    wrong_digest: Seq<u8>,
    preimage: Seq<u8>,
)
    requires
        unique_keys(htlcs),
        is_pending(htlcs, payment_hash),
        wrong_digest != payment_hash,
    ensures
        settle_result(htlcs, payment_hash, wrong_preimage, wrong_digest) == Err::<
            SettlementModel,
            VirtualHtlcError,
        >(VirtualHtlcError::InvalidPreimage),
        settle_table(htlcs, payment_hash, wrong_digest) == htlcs,
        is_pending(settle_table(htlcs, payment_hash, wrong_digest), payment_hash),
        settle_result(
            settle_table(htlcs, payment_hash, wrong_digest),
            payment_hash,
            preimage,
            payment_hash,
        ) is Ok,
{
}

/// Settlement happens once: after an entry was settled, settling it
/// again fails with `HtlcNotFound`, whatever preimage is shown, and
/// changes nothing.
pub proof fn lemma_settle_exactly_once(
    htlcs: Seq<HtlcModel>,
    payment_hash: Seq<u8>,
    preimage: Seq<u8>,
    digest: Seq<u8>,
    second_preimage: Seq<u8>,
    second_digest: Seq<u8>,
)
    requires
        unique_keys(htlcs),
        settle_result(htlcs, payment_hash, preimage, digest) is Ok,
    ensures
        settle_result(
            settle_table(htlcs, payment_hash, digest),
            payment_hash,
            second_preimage,
            second_digest,
        ) == Err::<SettlementModel, VirtualHtlcError>(VirtualHtlcError::HtlcNotFound),
        settle_table(settle_table(htlcs, payment_hash, digest), payment_hash, second_digest)
            == settle_table(htlcs, payment_hash, digest),
{
    let htlc = lookup(htlcs, payment_hash)->0;
    let i = crate::table::index_of(htlcs, payment_hash);
    assert(row_at(htlcs, payment_hash, i));
    lemma_put(htlcs, htlc.with_status(VirtualHtlcStatus::Settled));
}

/// `Settled` and `Failed` are final: no settlement and no failure report
/// changes an entry that is not pending.
pub proof fn lemma_terminal_is_final(htlcs: Seq<HtlcModel>, payment_hash: Seq<u8>, digest: Seq<u8>)
    requires
        !is_pending(htlcs, payment_hash),
    ensures
        settle_table(htlcs, payment_hash, digest) == htlcs,
        fail_table(htlcs, payment_hash) == htlcs,
{
}

/// Settling or failing one payment leaves every other payment as it
/// was, and keeps the table well formed.
pub proof fn lemma_transition_frame(htlcs: Seq<HtlcModel>, payment_hash: Seq<u8>, digest: Seq<u8>)
    requires
        unique_keys(htlcs),
    ensures
        unique_keys(settle_table(htlcs, payment_hash, digest)),
        unique_keys(fail_table(htlcs, payment_hash)),
        forall|other: Seq<u8>|
            other != payment_hash ==> lookup(settle_table(htlcs, payment_hash, digest), other)
                == lookup(htlcs, other),
        forall|other: Seq<u8>|
            other != payment_hash ==> lookup(fail_table(htlcs, payment_hash), other) == lookup(
                htlcs,
                other,
            ),
        is_pending(htlcs, payment_hash) ==> lookup(fail_table(htlcs, payment_hash), payment_hash)
            == Some(lookup(htlcs, payment_hash)->0.with_status(VirtualHtlcStatus::Failed)),
        is_pending(htlcs, payment_hash) && digest == payment_hash ==> lookup(
            settle_table(htlcs, payment_hash, digest),
            payment_hash,
        ) == Some(lookup(htlcs, payment_hash)->0.with_status(VirtualHtlcStatus::Settled)),
{
    if is_pending(htlcs, payment_hash) {
        let htlc = lookup(htlcs, payment_hash)->0;
        let i = crate::table::index_of(htlcs, payment_hash);
        assert(row_at(htlcs, payment_hash, i));
        lemma_put(htlcs, htlc.with_status(VirtualHtlcStatus::Settled));
        lemma_put(htlcs, htlc.with_status(VirtualHtlcStatus::Failed));
    }
}

/// Whether an entry created at `created_at` is at least `max_age` old
/// at `clock`.
pub open spec fn is_expired(created_at: u64, clock: u64, max_age: u64) -> bool {
    created_at + max_age <= clock
}

/// The payment hashes of the pending entries that are at least
/// `max_age` old at `clock`, oldest entry first.
pub open spec fn expired_hashes(
    htlcs: Seq<HtlcModel>,
    created: Seq<u64>,
    clock: u64,
    max_age: u64,
) -> Seq<Seq<u8>>
    recommends
        created.len() == htlcs.len(),
    decreases htlcs.len(),
{
    if htlcs.len() == 0 || created.len() != htlcs.len() {
        Seq::empty()
    } else if htlcs.last().status == VirtualHtlcStatus::Pending && is_expired(
        created.last(),
        clock,
        max_age,
    ) {
        expired_hashes(htlcs.drop_last(), created.drop_last(), clock, max_age).push(
            htlcs.last().payment_hash,
        )
    } else {
        expired_hashes(htlcs.drop_last(), created.drop_last(), clock, max_age)
    }
}

/// What a list of payment hashes says.
pub open spec fn hash_views(list: Seq<PaymentHash>) -> Seq<Seq<u8>> {
    list.map_values(|h: PaymentHash| h@)
}

/// Every pending entry that is at least `max_age` old is listed among
/// the expired ones.
pub proof fn lemma_expired_hashes_complete(
    htlcs: Seq<HtlcModel>,
    created: Seq<u64>,
    clock: u64,
    max_age: u64,
    i: int,
)
    requires
        created.len() == htlcs.len(),
        0 <= i < htlcs.len(),
        htlcs[i].status == VirtualHtlcStatus::Pending,
        is_expired(created[i], clock, max_age),
    ensures
        expired_hashes(htlcs, created, clock, max_age).contains(htlcs[i].payment_hash),
    decreases htlcs.len(),
{
    let listed = expired_hashes(htlcs, created, clock, max_age);
    let rest = expired_hashes(htlcs.drop_last(), created.drop_last(), clock, max_age);
    if i == htlcs.len() - 1 {
        assert(listed[rest.len() as int] == htlcs[i].payment_hash);
    } else {
        assert(htlcs.drop_last()[i] == htlcs[i]);
        assert(created.drop_last()[i] == created[i]);
        lemma_expired_hashes_complete(htlcs.drop_last(), created.drop_last(), clock, max_age, i);
        let j = choose|j: int| 0 <= j < rest.len() && rest[j] == htlcs[i].payment_hash;
        assert(listed[j] == htlcs[i].payment_hash);
    }
}

/// One entry of the ledger: the HTLC and when it was created.
struct HtlcEntry {
    htlc: VirtualHtlc,
    created_at: u64,
}

/// The settlement ledger, with the ownership registry that it fills.
pub struct VirtualHtlcManager {
    pending_htlcs: Vec<HtlcEntry>,
    virtual_channel_manager: VirtualChannelManager,
    clock: u64,
}

impl VirtualHtlcManager {
    /// The entries, oldest first.
    pub closed spec fn htlcs(&self) -> Seq<HtlcModel> {
        self.pending_htlcs@.map_values(|e: HtlcEntry| e.htlc@)
    }

    /// When each entry was created, in the order of the entries.
    pub closed spec fn created(&self) -> Seq<u64> {
        self.pending_htlcs@.map_values(|e: HtlcEntry| e.created_at)
    }

    /// The time as the ledger was last told.
    pub closed spec fn clock(&self) -> u64 {
        self.clock
    }

    /// The ownership registry.
    pub closed spec fn registry(&self) -> VirtualChannelManager {
        self.virtual_channel_manager
    }

    /// Every payment hash has one entry, and the registry is well formed.
    pub open spec fn wf(&self) -> bool {
        &&& unique_keys(self.htlcs())
        &&& self.registry().wf()
        &&& self.created().len() == self.htlcs().len()
    }

    /// A ledger without entries over the given registry, at time zero.
    pub fn new(virtual_channel_manager: VirtualChannelManager) -> (res: VirtualHtlcManager)
        requires
            virtual_channel_manager.wf(),
        ensures
            res.wf(),
            res.htlcs() == Seq::<HtlcModel>::empty(),
            res.created() == Seq::<u64>::empty(),
            res.clock() == 0,
            res.registry() == virtual_channel_manager,
    {
        let res = VirtualHtlcManager {
            pending_htlcs: Vec::new(),
            virtual_channel_manager,
            clock: 0,
        };
        assert(res.htlcs() =~= Seq::<HtlcModel>::empty());
        assert(res.created() =~= Seq::<u64>::empty());
        res
    }

    /// Tells the ledger the time. The ledger's time never goes back.
    pub fn advance_clock(&mut self, now: u64)
        ensures
            final(self).clock() == if now > old(self).clock() {
                now
            } else {
                old(self).clock()
            },
            final(self).htlcs() == old(self).htlcs(),
            final(self).created() == old(self).created(),
            final(self).registry() == old(self).registry(),
            old(self).wf() ==> final(self).wf(),
    {
        if now > self.clock {
            self.clock = now;
        }
    }

    /// The ownership registry.
    pub fn channel_manager(&self) -> (res: &VirtualChannelManager)
        ensures
            *res == self.registry(),
    {
        &self.virtual_channel_manager
    }

    /// Registers `virtual_node_id` as the owner of `channel_id` in the
    /// ownership registry. A channel that is registered already gets
    /// the new owner.
    pub fn map_channel_to_virtual_node(
        &mut self,
        channel_id: &str,
        virtual_node_id: &str,
        user_id: &str,
    )
        requires
            old(self).wf(),
        ensures
            final(self).wf(),
            final(self).htlcs() == old(self).htlcs(),
            final(self).created() == old(self).created(),
            final(self).clock() == old(self).clock(),
            final(self).registry().payments() == old(self).registry().payments(),
            final(self).registry().owner_of(channel_id@) == Some(virtual_node_id@),
            forall|other: Seq<char>|
                other != channel_id@ ==> final(self).registry().owner_of(other) == old(
                    self,
                ).registry().owner_of(other),
    {
        self.virtual_channel_manager.map_channel_to_virtual_node(
            channel_id,
            virtual_node_id,
            user_id,
        );
    }

    /// The ownership registry, to register channels in.
    pub fn channel_manager_mut(&mut self) -> (res: &mut VirtualChannelManager)
        ensures
            *res == old(self).registry(),
            final(self).registry() == *final(res),
            final(self).htlcs() == old(self).htlcs(),
            final(self).created() == old(self).created(),
            final(self).clock() == old(self).clock(),
    {
        &mut self.virtual_channel_manager
    }

    /// The entry for `payment_hash`, if there is one.
    pub fn get(&self, payment_hash: &PaymentHash) -> (res: Option<VirtualHtlc>)
        requires
            self.wf(),
        ensures
            res is Some <==> lookup(self.htlcs(), payment_hash@) is Some,
            res matches Some(htlc) ==> lookup(self.htlcs(), payment_hash@) == Some(htlc@),
    {
        match self.find(payment_hash) {
            Some(i) => {
                proof {
                    lemma_index_of(self.htlcs(), payment_hash@, i as int);
                }
                Some(self.pending_htlcs[i].htlc.duplicate())
            },
            None => {
                proof {
                    lemma_absent(self.htlcs(), payment_hash@);
                }
                None
            },
        }
    }

    fn find(&self, payment_hash: &PaymentHash) -> (res: Option<usize>)
        ensures
            match res {
                Some(i) => row_at(self.htlcs(), payment_hash@, i as int),
                None => forall|j: int|
                    0 <= j < self.htlcs().len() ==> (#[trigger] self.htlcs()[j]).key()
                        != payment_hash@,
            },
    {
        let mut i: usize = 0;
        while i < self.pending_htlcs.len()
            invariant
                i <= self.pending_htlcs@.len(),
                forall|j: int| 0 <= j < i ==> (#[trigger] self.htlcs()[j]).key() != payment_hash@,
            decreases self.pending_htlcs@.len() - i,
        {
            if self.pending_htlcs[i].htlc.payment_hash == *payment_hash {
                return Some(i);
            }
            i += 1;
        }
        None
    }

    /// Whether an entry with the payment hash exists, in any status.
    pub fn contains(&self, payment_hash: &PaymentHash) -> (res: bool)
        ensures
            res == has_key(self.htlcs(), payment_hash@),
    {
        match self.find(payment_hash) {
            Some(i) => {
                assert(row_at(self.htlcs(), payment_hash@, i as int));
                true
            },
            None => {
                proof {
                    lemma_absent(self.htlcs(), payment_hash@);
                }
                false
            },
        }
    }

    /// Creates the pending entry of a new payment, stamped with the
    /// ledger's time, and registers the payment for both parties. Fails
    /// with `DuplicatePaymentHash`, and changes nothing, where an entry
    /// with the payment hash exists.
    pub fn create_virtual_htlc(
        &mut self,
        payment_hash: PaymentHash,
        from_virtual_node: PublicKey,
        to_virtual_node: PublicKey,
        btc_amount_msat: u64,
        rgb_transfer: Option<RgbTransfer>,
    ) -> (res: Result<(), VirtualHtlcError>)
        requires
            old(self).wf(),
        ensures
            final(self).wf(),
            final(self).clock() == old(self).clock(),
            res is Ok <==> !has_key(old(self).htlcs(), payment_hash@),
            res matches Err(e) ==> e is DuplicatePaymentHash && *final(self) == *old(self),
            res is Ok ==> {
                &&& final(self).htlcs() == old(self).htlcs().push(
                    pending_htlc(
                        payment_hash@,
                        from_virtual_node@,
                        to_virtual_node@,
                        btc_amount_msat,
                        transfer_model(rgb_transfer),
                    ),
                )
                &&& final(self).created() == old(self).created().push(old(self).clock())
                &&& final(self).registry().payments() == with_htlc_rows(
                    old(self).registry().payments(),
                    payment_hash@,
                    from_virtual_node@,
                    to_virtual_node@,
                )
                &&& final(self).registry().channels() == old(self).registry().channels()
                &&& is_pending(final(self).htlcs(), payment_hash@)
            },
    {
        match self.find(&payment_hash) {
            Some(i) => {
                assert(row_at(self.htlcs(), payment_hash@, i as int));
                return Err(VirtualHtlcError::DuplicatePaymentHash);
            },
            None => {},
        }
        let ghost before = self.htlcs();
        let ghost times = self.created();
        proof {
            lemma_absent(before, payment_hash@);
        }
        let htlc = VirtualHtlc {
            payment_hash,
            from_virtual_node,
            to_virtual_node,
            btc_amount_msat,
            rgb_transfer,
            status: VirtualHtlcStatus::Pending,
        };
        proof {
            crate::table::lemma_put_appends(before, htlc@);
            lemma_put(before, htlc@);
        }
        self.pending_htlcs.push(HtlcEntry { htlc, created_at: self.clock });
        assert(self.htlcs() =~= before.push(htlc@));
        assert(self.created() =~= times.push(self.clock));

        let hash_text = payment_hash.to_hex();
        let from_text = from_virtual_node.to_hex();
        let to_text = to_virtual_node.to_hex();
        self.virtual_channel_manager.map_payment_to_virtual_node(
            hash_text.as_str(),
            from_text.as_str(),
            from_text.as_str(),
            false,
        );
        self.virtual_channel_manager.map_payment_to_virtual_node(
            hash_text.as_str(),
            to_text.as_str(),
            to_text.as_str(),
            true,
        );
        Ok(())
    }

    /// Settles the entry for `payment_hash`, given the digest of the
    /// preimage. What is returned and what becomes of the table is
    /// `settle_result` and `settle_table`. The registry does not change.
    pub fn settle_with_digest(
        &mut self,
        payment_hash: PaymentHash,
        preimage: PaymentPreimage,
        digest: &[u8; 32],
    ) -> (res: Result<VirtualSettlement, VirtualHtlcError>)
        requires
            old(self).wf(),
        ensures
            final(self).wf(),
            final(self).htlcs() == settle_table(old(self).htlcs(), payment_hash@, digest@),
            final(self).created() == old(self).created(),
            final(self).clock() == old(self).clock(),
            final(self).registry() == old(self).registry(),
            match res {
                Ok(settlement) => settle_result(
                    old(self).htlcs(),
                    payment_hash@,
                    preimage@,
                    digest@,
                ) == Ok::<SettlementModel, VirtualHtlcError>(settlement@),
                Err(e) => settle_result(old(self).htlcs(), payment_hash@, preimage@, digest@)
                    == Err::<SettlementModel, VirtualHtlcError>(e),
            },
    {
        let ghost before = self.htlcs();
        let ghost times = self.created();
        let i = match self.find(&payment_hash) {
            Some(i) => i,
            None => {
                proof {
                    lemma_absent(before, payment_hash@);
                }
                return Err(VirtualHtlcError::HtlcNotFound);
            },
        };
        proof {
            lemma_index_of(before, payment_hash@, i as int);
        }
        match self.pending_htlcs[i].htlc.status {
            VirtualHtlcStatus::Pending => {},
            _ => {
                return Err(VirtualHtlcError::HtlcNotFound);
            },
        }
        if !crate::types::bytes_eq(digest.as_slice(), payment_hash.0.as_slice()) {
            return Err(VirtualHtlcError::InvalidPreimage);
        }
        let mut settled = self.pending_htlcs[i].htlc.duplicate();
        let created_at = self.pending_htlcs[i].created_at;
        let settlement = VirtualSettlement {
            payment_hash,
            preimage,
            btc_settled: settled.btc_amount_msat,
            rgb_settled: duplicate_transfer(&settled.rgb_transfer),
            from_virtual_node: settled.from_virtual_node,
            to_virtual_node: settled.to_virtual_node,
        };
        settled.status = VirtualHtlcStatus::Settled;
        proof {
            assert(settled@ == before[i as int].with_status(VirtualHtlcStatus::Settled));
            lemma_put_replaces(before, settled@, i as int);
            lemma_put(before, settled@);
        }
        self.pending_htlcs.set(i, HtlcEntry { htlc: settled, created_at });
        assert(self.htlcs() =~= before.update(i as int, settled@));
        assert(self.created() =~= times);
        Ok(settlement)
    }

    /// Settles the entry for `payment_hash` with `preimage`: fails with
    /// `HtlcNotFound` where no pending entry exists, with
    /// `InvalidPreimage` where the digest of the preimage is not the
    /// payment hash, and otherwise marks the entry `Settled` and returns
    /// the settlement of both legs.
    pub fn settle_virtual_htlc(&mut self, payment_hash: PaymentHash, preimage: PaymentPreimage) -> (res:
        Result<VirtualSettlement, VirtualHtlcError>)
        requires
            old(self).wf(),
        ensures
            final(self).wf(),
            final(self).htlcs() == settle_table(
                old(self).htlcs(),
                payment_hash@,
                bitcoin_sha256(preimage@),
            ),
            final(self).created() == old(self).created(),
            final(self).clock() == old(self).clock(),
            final(self).registry() == old(self).registry(),
            match res {
                Ok(settlement) => settle_result(
                    old(self).htlcs(),
                    payment_hash@,
                    preimage@,
                    bitcoin_sha256(preimage@),
                ) == Ok::<SettlementModel, VirtualHtlcError>(settlement@),
                Err(e) => settle_result(
                    old(self).htlcs(),
                    payment_hash@,
                    preimage@,
                    bitcoin_sha256(preimage@),
                ) == Err::<SettlementModel, VirtualHtlcError>(e),
            },
    {
        let digest = bitcoin_sha256_digest(&preimage.0);
        self.settle_with_digest(payment_hash, preimage, &digest)
    }

    /// Marks the pending entry for `payment_hash` as `Failed`. An entry
    /// that is settled or failed already, or missing, is left as it is.
    pub fn fail_virtual_htlc(&mut self, payment_hash: PaymentHash) -> (res: Result<
        (),
        VirtualHtlcError,
    >)
        requires
            old(self).wf(),
        ensures
            final(self).wf(),
            res is Ok,
            final(self).htlcs() == fail_table(old(self).htlcs(), payment_hash@),
            final(self).created() == old(self).created(),
            final(self).clock() == old(self).clock(),
            final(self).registry() == old(self).registry(),
    {
        let ghost before = self.htlcs();
        let ghost times = self.created();
        match self.find(&payment_hash) {
            Some(i) => {
                proof {
                    lemma_index_of(before, payment_hash@, i as int);
                }
                match self.pending_htlcs[i].htlc.status {
                    VirtualHtlcStatus::Pending => {
                        let mut failed = self.pending_htlcs[i].htlc.duplicate();
                        let created_at = self.pending_htlcs[i].created_at;
                        failed.status = VirtualHtlcStatus::Failed;
                        proof {
                            assert(failed@ == before[i as int].with_status(
                                VirtualHtlcStatus::Failed,
                            ));
                            lemma_put_replaces(before, failed@, i as int);
                            lemma_put(before, failed@);
                        }
                        self.pending_htlcs.set(i, HtlcEntry { htlc: failed, created_at });
                        assert(self.htlcs() =~= before.update(i as int, failed@));
                        assert(self.created() =~= times);
                    },
                    _ => {},
                }
            },
            None => {
                proof {
                    lemma_absent(before, payment_hash@);
                }
            },
        }
        Ok(())
    }

    /// The pending entries that `virtual_node` is a party of, oldest
    /// first.
    pub fn get_pending_htlcs(&self, virtual_node: &PublicKey) -> (res: Vec<VirtualHtlc>)
        ensures
            htlc_models(res@) == pending_for(self.htlcs(), virtual_node@),
    {
        let mut out: Vec<VirtualHtlc> = Vec::new();
        let mut i: usize = 0;
        assert(self.htlcs().subrange(0, 0) =~= Seq::<HtlcModel>::empty());
        assert(htlc_models(out@) =~= Seq::<HtlcModel>::empty());
        while i < self.pending_htlcs.len()
            invariant
                i <= self.pending_htlcs@.len(),
                htlc_models(out@) == pending_for(self.htlcs().subrange(0, i as int), virtual_node@),
            decreases self.pending_htlcs@.len() - i,
        {
            let ghost prefix = self.htlcs().subrange(0, i as int);
            let ghost next = self.htlcs().subrange(0, i as int + 1);
            let ghost listed = htlc_models(out@);
            assert(next.drop_last() =~= prefix);
            assert(next.last() == self.htlcs()[i as int]);
            let htlc = &self.pending_htlcs[i].htlc;
            let pending = match htlc.status {
                VirtualHtlcStatus::Pending => true,
                _ => false,
            };
            if pending && (htlc.from_virtual_node == *virtual_node || htlc.to_virtual_node
                == *virtual_node) {
                out.push(htlc.duplicate());
                assert(htlc_models(out@) =~= listed.push(self.htlcs()[i as int]));
            }
            i += 1;
        }
        assert(self.htlcs().subrange(0, i as int) =~= self.htlcs());
        out
    }

    /// The payment hashes of the pending entries that are at least
    /// `max_age` old by the ledger's time, oldest entry first.
    pub fn expired_payments(&self, max_age: u64) -> (res: Vec<PaymentHash>)
        ensures
            hash_views(res@) == expired_hashes(
                self.htlcs(),
                self.created(),
                self.clock(),
                max_age,
            ),
    {
        let mut out: Vec<PaymentHash> = Vec::new();
        let mut i: usize = 0;
        assert(self.htlcs().subrange(0, 0) =~= Seq::<HtlcModel>::empty());
        assert(hash_views(out@) =~= Seq::<Seq<u8>>::empty());
        while i < self.pending_htlcs.len()
            invariant
                i <= self.pending_htlcs@.len(),
                hash_views(out@) == expired_hashes(
                    self.htlcs().subrange(0, i as int),
                    self.created().subrange(0, i as int),
                    self.clock(),
                    max_age,
                ),
            decreases self.pending_htlcs@.len() - i,
        {
            let ghost listed = hash_views(out@);
            assert(self.htlcs().subrange(0, i as int + 1).drop_last() =~= self.htlcs().subrange(
                0,
                i as int,
            ));
            assert(self.created().subrange(0, i as int + 1).drop_last()
                =~= self.created().subrange(0, i as int));
            assert(self.htlcs().subrange(0, i as int + 1).last() == self.htlcs()[i as int]);
            assert(self.created().subrange(0, i as int + 1).last() == self.created()[i as int]);
            let entry = &self.pending_htlcs[i];
            let pending = match entry.htlc.status {
                VirtualHtlcStatus::Pending => true,
                _ => false,
            };
            let expired = match entry.created_at.checked_add(max_age) {
                Some(deadline) => deadline <= self.clock,
                None => false,
            };
            if pending && expired {
                out.push(entry.htlc.payment_hash);
                assert(hash_views(out@) =~= listed.push(self.htlcs()[i as int].payment_hash));
            }
            i += 1;
        }
        assert(self.htlcs().subrange(0, i as int) =~= self.htlcs());
        assert(self.created().subrange(0, i as int) =~= self.created());
        out
    }
}

} // verus!
