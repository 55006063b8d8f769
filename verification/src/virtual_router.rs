//! The virtual router: sends payments between virtual nodes by driving
//! the settlement ledger and the balance ledger together.
//!
//! Sending reserves the amounts and creates the pending HTLC. The payment
//! then waits for the signal of the payment engine: a preimage settles it
//! and moves the balances, a failure fails it and frees the reservation.
//! The router never makes up a preimage for a payment.

use crate::crypto::bitcoin_sha256;
use crate::crypto::bitcoin_sha256_digest;
use crate::crypto::secure_random_bytes;
use crate::table::has_key;
use crate::table::index_of;
use crate::table::lemma_index_of;
use crate::table::lemma_put;
use crate::table::lemma_put_replaces;
use crate::table::row_at;
use crate::table::unique_keys;
use crate::table::lookup;
use crate::types::ContractId;
use crate::types::PaymentHash;
use crate::types::PaymentPreimage;
use crate::types::PublicKey;
use crate::virtual_balance::BalanceError;
use crate::virtual_balance::LedgerModel;
use crate::virtual_balance::VirtualBalanceManager;
use crate::virtual_htlc::expired_hashes;
use crate::virtual_htlc::fail_table;
use crate::virtual_htlc::hash_views;
use crate::virtual_htlc::is_expired;
use crate::virtual_htlc::lemma_expired_hashes_complete;
use crate::virtual_htlc::lemma_pending_bounds;
use crate::virtual_htlc::lemma_pending_push;
use crate::virtual_htlc::lemma_pending_update;
use crate::virtual_htlc::pending_btc;
use crate::virtual_htlc::pending_rgb;
use crate::virtual_htlc::is_pending;
use crate::virtual_htlc::pending_htlc;
use crate::virtual_htlc::settle_result;
use crate::virtual_htlc::settle_table;
use crate::virtual_htlc::transfer_model;
use crate::virtual_htlc::with_htlc_rows;
use crate::virtual_htlc::HtlcModel;
use crate::virtual_htlc::RgbTransfer;
use crate::virtual_htlc::SettlementModel;
use crate::virtual_htlc::TransferModel;
use crate::virtual_htlc::VirtualHtlcError;
use crate::virtual_htlc::VirtualHtlcManager;
use crate::virtual_htlc::VirtualHtlcStatus;
use crate::virtual_htlc::VirtualSettlement;
use crate::virtual_channel::VirtualChannelManager;
use lightning::sign::KeysManager;
use std::sync::Arc;
use vstd::prelude::*;

verus! {

/// A payment that was settled: its hash, the preimage that settled it,
/// and what moved.
#[derive(Clone, Debug)]
pub struct VirtualPaymentResult {
    pub payment_hash: PaymentHash,
    pub preimage: PaymentPreimage,
    pub settlement: VirtualSettlement,
}

/// The token amount that an invoice asks for.
#[derive(Clone, Debug)]
pub struct RgbInvoiceRequest {
    pub contract_id: ContractId,
    pub amount: u64,
}

impl View for RgbInvoiceRequest {
    type V = TransferModel;

    open spec fn view(&self) -> TransferModel {
        TransferModel { contract_id: self.contract_id@, amount: self.amount }
    }
}

/// What an optional token request says.
pub open spec fn request_model(request: Option<RgbInvoiceRequest>) -> Option<TransferModel> {
    match request {
        Some(r) => Some(r@),
        None => None,
    }
}

/// A request to be paid: who is to receive, under which payment hash,
/// how much of each asset, and for how long the request stands.
#[derive(Clone, Debug)]
pub struct VirtualInvoice {
    pub virtual_node: PublicKey,
    pub payment_hash: PaymentHash,
    pub preimage: PaymentPreimage,
    pub btc_amount_msat: Option<u64>,
    pub rgb_request: Option<RgbInvoiceRequest>,
    pub expiry_sec: u32,
}

/// What the payment engine reports of a payment in flight.
#[derive(Clone, Copy, Debug)]
pub enum PaymentSignal {
    /// The payment went through, and this preimage proves it.
    Settled(PaymentPreimage),
    /// The payment failed or timed out.
    Failed,
}

/// Why the router could not do what was asked.
#[derive(Debug)]
pub enum VirtualRouterError {
    /// The sender cannot cover the payment.
    InsufficientBalance(BalanceError),
    /// The pending HTLC could not be created.
    HtlcCreation(VirtualHtlcError),
    /// The HTLC could not be settled.
    Settlement(VirtualHtlcError),
    /// The balances could not be updated.
    BalanceUpdate(BalanceError),
    /// The payment engine reported a failure.
    RoutingFailed(String),
}

impl VirtualRouterError {
    /// The error in words.
    pub open spec fn spec_message(&self) -> Seq<char> {
        match self {
            VirtualRouterError::InsufficientBalance(e) => "Insufficient balance: "@
                + e.spec_message(),
            VirtualRouterError::HtlcCreation(e) => "HTLC creation failed: "@ + e.spec_message(),
            VirtualRouterError::Settlement(e) => "Settlement failed: "@ + e.spec_message(),
            VirtualRouterError::BalanceUpdate(e) => "Balance update failed: "@ + e.spec_message(),
            VirtualRouterError::RoutingFailed(detail) => "Routing failed: "@ + detail@,
        }
    }

    /// The error in words.
    pub fn message(&self) -> (res: String)
        ensures
            res@ == self.spec_message(),
    {
        match self {
            VirtualRouterError::InsufficientBalance(e) => String::from_str(
                "Insufficient balance: ",
            ).concat(e.message().as_str()),
            VirtualRouterError::HtlcCreation(e) => String::from_str(
                "HTLC creation failed: ",
            ).concat(e.message().as_str()),
            VirtualRouterError::Settlement(e) => String::from_str("Settlement failed: ").concat(
                e.message().as_str(),
            ),
            VirtualRouterError::BalanceUpdate(e) => String::from_str(
                "Balance update failed: ",
            ).concat(e.message().as_str()),
            VirtualRouterError::RoutingFailed(detail) => String::from_str(
                "Routing failed: ",
            ).concat(detail.as_str()),
        }
    }
}

/// The token leg that pays a token request.
pub fn transfer_for_request(request: &Option<RgbInvoiceRequest>) -> (res: Option<RgbTransfer>)
    ensures
        transfer_model(res) == request_model(*request),
{
    match request {
        Some(r) => Some(RgbTransfer { contract_id: r.contract_id.duplicate(), amount: r.amount }),
        None => None,
    }
}

/// The entry of the pending payment `payment_hash`, where there is one.
pub open spec fn pending_entry(htlcs: Seq<HtlcModel>, payment_hash: Seq<u8>) -> HtlcModel {
    lookup(htlcs, payment_hash)->0
}

/// The ledger after the payment `payment_hash` failed: the sender's
/// reservation is freed where the payment was pending, and nothing
/// changes where it was not.
pub open spec fn ledger_after_failure(
    ledger: LedgerModel,
    htlcs: Seq<HtlcModel>,
    payment_hash: Seq<u8>,
) -> LedgerModel {
    if is_pending(htlcs, payment_hash) {
        let htlc = pending_entry(htlcs, payment_hash);
        ledger.release(htlc.from_virtual_node, htlc.btc_amount_msat, htlc.rgb_transfer)
    } else {
        ledger
    }
}

/// The ledger after a settlement attempt: the balances move where the
/// attempt succeeds, and nothing changes where it fails.
pub open spec fn ledger_after_settle(
    ledger: LedgerModel,
    htlcs: Seq<HtlcModel>,
    payment_hash: Seq<u8>,
    preimage: Seq<u8>,
    digest: Seq<u8>,
) -> LedgerModel {
    match settle_result(htlcs, payment_hash, preimage, digest) {
        Ok(settlement) => ledger.apply_settlement(settlement),
        Err(_) => ledger,
    }
}

/// Whether the currency that `node` has reserved covers what its
/// pending payments hold back.
pub open spec fn btc_covered(htlcs: Seq<HtlcModel>, ledger: LedgerModel, node: Seq<u8>) -> bool {
    pending_btc(htlcs, node) <= ledger.btc[node].reserved
}

/// Whether the tokens that `node` has reserved under `contract_id`
/// cover what its pending payments hold back.
pub open spec fn rgb_covered(
    htlcs: Seq<HtlcModel>,
    ledger: LedgerModel,
    node: Seq<u8>,
    contract_id: Seq<char>,
) -> bool {
    pending_rgb(htlcs, node, contract_id) <= ledger.rgb[(node, contract_id)].reserved
}

/// Every pending payment is covered by a reservation of its sender.
pub open spec fn covered(htlcs: Seq<HtlcModel>, ledger: LedgerModel) -> bool {
    &&& forall|node: Seq<u8>| #[trigger] btc_covered(htlcs, ledger, node)
    &&& forall|node: Seq<u8>, contract_id: Seq<char>| #[trigger]
        rgb_covered(htlcs, ledger, node, contract_id)
}

/// Without payments, everything is covered.
pub proof fn lemma_covered_empty(ledger: LedgerModel)
    ensures
        covered(Seq::<HtlcModel>::empty(), ledger),
{
}

/// A deposit keeps every pending payment covered.
pub proof fn lemma_covered_after_deposit(
    htlcs: Seq<HtlcModel>,
    ledger: LedgerModel,
    node: Seq<u8>,
    contract_id: Seq<char>,
    amount: u64,
)
    requires
        covered(htlcs, ledger),
    ensures
        covered(htlcs, ledger.with_btc(node, ledger.btc[node].credit(amount))),
        covered(
            htlcs,
            ledger.with_rgb(node, contract_id, ledger.rgb[(node, contract_id)].credit(amount)),
        ),
{
    let with_btc = ledger.with_btc(node, ledger.btc[node].credit(amount));
    let with_rgb = ledger.with_rgb(
        node,
        contract_id,
        ledger.rgb[(node, contract_id)].credit(amount),
    );
    assert forall|n: Seq<u8>| #[trigger] btc_covered(htlcs, with_btc, n) by {
        assert(btc_covered(htlcs, ledger, n));
    }
    assert forall|n: Seq<u8>, c: Seq<char>| #[trigger] rgb_covered(htlcs, with_btc, n, c) by {
        assert(rgb_covered(htlcs, ledger, n, c));
    }
    assert forall|n: Seq<u8>| #[trigger] btc_covered(htlcs, with_rgb, n) by {
        assert(btc_covered(htlcs, ledger, n));
    }
    assert forall|n: Seq<u8>, c: Seq<char>| #[trigger] rgb_covered(htlcs, with_rgb, n, c) by {
        assert(rgb_covered(htlcs, ledger, n, c));
    }
}

/// A payment that was reserved and then entered as pending is covered,
/// and so is every payment that was covered before.
pub proof fn lemma_covered_after_send(htlcs: Seq<HtlcModel>, ledger: LedgerModel, htlc: HtlcModel)
    requires
        covered(htlcs, ledger),
        ledger.wf(),
        htlc.status == VirtualHtlcStatus::Pending,
        ledger.sufficiency(htlc.from_virtual_node, htlc.btc_amount_msat, htlc.rgb_transfer) is Ok,
    ensures
        covered(
            htlcs.push(htlc),
            ledger.reserve(htlc.from_virtual_node, htlc.btc_amount_msat, htlc.rgb_transfer),
        ),
{
    let from = htlc.from_virtual_node;
    let after = ledger.reserve(from, htlc.btc_amount_msat, htlc.rgb_transfer);
    let pushed = htlcs.push(htlc);
    assert(ledger.btc[from].wf());
    assert forall|n: Seq<u8>| #[trigger] btc_covered(pushed, after, n) by {
        lemma_pending_push(htlcs, htlc, n, Seq::<char>::empty());
        assert(btc_covered(htlcs, ledger, n));
    }
    assert forall|n: Seq<u8>, c: Seq<char>| #[trigger] rgb_covered(pushed, after, n, c) by {
        lemma_pending_push(htlcs, htlc, n, c);
        assert(rgb_covered(htlcs, ledger, n, c));
        assert(ledger.rgb[(n, c)].wf());
    }
}

/// Settling keeps every pending payment covered. Where it succeeds, the
/// sender's reservation covered the payment, so both legs leave the
/// sender in full: the floor at zero is not what keeps the balance from
/// going negative.
pub proof fn lemma_covered_after_settle(
    htlcs: Seq<HtlcModel>,
    ledger: LedgerModel,
    payment_hash: Seq<u8>,
    preimage: Seq<u8>,
    digest: Seq<u8>,
)
    requires
        unique_keys(htlcs),
        ledger.wf(),
        covered(htlcs, ledger),
    ensures
        covered(
            settle_table(htlcs, payment_hash, digest),
            ledger_after_settle(ledger, htlcs, payment_hash, preimage, digest),
        ),
        settle_result(htlcs, payment_hash, preimage, digest) matches Ok(settlement) ==> {
            &&& ledger.btc[settlement.from_virtual_node].balance >= settlement.btc_settled
            &&& ledger.btc[settlement.from_virtual_node].reserved >= settlement.btc_settled
            &&& settlement.rgb_settled matches Some(t) ==> ledger.rgb[(
                settlement.from_virtual_node,
                t.contract_id,
            )].balance >= t.amount
        },
{
    match settle_result(htlcs, payment_hash, preimage, digest) {
        Ok(settlement) => {
            let i = index_of(htlcs, payment_hash);
            assert(row_at(htlcs, payment_hash, i));
            let htlc = htlcs[i];
            let settled = htlc.with_status(VirtualHtlcStatus::Settled);
            lemma_put_replaces(htlcs, settled, i);
            let table = htlcs.update(i, settled);
            let from = settlement.from_virtual_node;
            let to = settlement.to_virtual_node;
            let after = ledger.apply_settlement(settlement);
            assert(ledger.btc[from].wf());
            assert(btc_covered(htlcs, ledger, from));
            lemma_pending_bounds(htlcs, i, from, Seq::<char>::empty());
            match settlement.rgb_settled {
                Some(t) => {
                    assert(ledger.rgb[(from, t.contract_id)].wf());
                    assert(rgb_covered(htlcs, ledger, from, t.contract_id));
                    lemma_pending_bounds(htlcs, i, from, t.contract_id);
                },
                None => {},
            }
            assert forall|n: Seq<u8>| #[trigger] btc_covered(table, after, n) by {
                lemma_pending_update(htlcs, i, settled, n, Seq::<char>::empty());
                assert(btc_covered(htlcs, ledger, n));
            }
            assert forall|n: Seq<u8>, c: Seq<char>| #[trigger] rgb_covered(table, after, n, c) by {
                lemma_pending_update(htlcs, i, settled, n, c);
                assert(rgb_covered(htlcs, ledger, n, c));
            }
        },
        Err(_) => {},
    }
}

/// Failing a payment frees what it held back and keeps every other
/// pending payment covered.
pub proof fn lemma_covered_after_failure(
    htlcs: Seq<HtlcModel>,
    ledger: LedgerModel,
    payment_hash: Seq<u8>,
)
    requires
        unique_keys(htlcs),
        ledger.wf(),
        covered(htlcs, ledger),
    ensures
        covered(fail_table(htlcs, payment_hash), ledger_after_failure(ledger, htlcs, payment_hash)),
{
    if is_pending(htlcs, payment_hash) {
        let i = index_of(htlcs, payment_hash);
        assert(row_at(htlcs, payment_hash, i));
        let htlc = htlcs[i];
        let failed = htlc.with_status(VirtualHtlcStatus::Failed);
        lemma_put_replaces(htlcs, failed, i);
        let table = htlcs.update(i, failed);
        let from = htlc.from_virtual_node;
        let after = ledger.release(from, htlc.btc_amount_msat, htlc.rgb_transfer);
        assert forall|n: Seq<u8>| #[trigger] btc_covered(table, after, n) by {
            lemma_pending_update(htlcs, i, failed, n, Seq::<char>::empty());
            assert(btc_covered(htlcs, ledger, n));
        }
        assert forall|n: Seq<u8>, c: Seq<char>| #[trigger] rgb_covered(table, after, n, c) by {
            lemma_pending_update(htlcs, i, failed, n, c);
            assert(rgb_covered(htlcs, ledger, n, c));
        }
    }
}

/// Settlement is atomic and exact: where every pending payment is
/// covered, sender and receiver differ and the receiver's balances have
/// room, settling a payment takes exactly its currency amount and its
/// token amount from the sender, gives exactly them to the receiver,
/// and changes no other balance. Both legs move within the one
/// settling call.
pub proof fn lemma_settlement_is_exact(
    htlcs: Seq<HtlcModel>,
    ledger: LedgerModel,
    payment_hash: Seq<u8>,
    preimage: Seq<u8>,
    digest: Seq<u8>,
)
    requires
        unique_keys(htlcs),
        ledger.wf(),
        covered(htlcs, ledger),
        settle_result(htlcs, payment_hash, preimage, digest) is Ok,
        ({
            let s = settle_result(htlcs, payment_hash, preimage, digest)->Ok_0;
            &&& s.from_virtual_node != s.to_virtual_node
            &&& ledger.btc[s.to_virtual_node].balance + s.btc_settled <= u64::MAX
            &&& s.rgb_settled matches Some(t) ==> ledger.rgb[(
                s.to_virtual_node,
                t.contract_id,
            )].balance + t.amount <= u64::MAX
        }),
    ensures
        ({
            let s = settle_result(htlcs, payment_hash, preimage, digest)->Ok_0;
            let after = ledger_after_settle(ledger, htlcs, payment_hash, preimage, digest);
            let from = s.from_virtual_node;
            let to = s.to_virtual_node;
            &&& after.btc[from].balance == ledger.btc[from].balance - s.btc_settled
            &&& after.btc[to].balance == ledger.btc[to].balance + s.btc_settled
            &&& forall|node: Seq<u8>|
                node != from && node != to ==> after.btc[node] == ledger.btc[node]
            &&& match s.rgb_settled {
                Some(t) => {
                    &&& after.rgb[(from, t.contract_id)].balance == ledger.rgb[(
                        from,
                        t.contract_id,
                    )].balance - t.amount
                    &&& after.rgb[(to, t.contract_id)].balance == ledger.rgb[(
                        to,
                        t.contract_id,
                    )].balance + t.amount
                    &&& forall|key: (Seq<u8>, Seq<char>)|
                        key != (from, t.contract_id) && key != (to, t.contract_id) ==> after.rgb[key]
                            == ledger.rgb[key]
                },
                None => after.rgb == ledger.rgb,
            }
        }),
{
    lemma_covered_after_settle(htlcs, ledger, payment_hash, preimage, digest);
    let s = settle_result(htlcs, payment_hash, preimage, digest)->Ok_0;
    crate::virtual_balance::lemma_settlement_moves_both_legs(ledger, s);
}

/// The table and the balances after each of the listed payments
/// failed, one after another.
pub open spec fn fail_all(htlcs: Seq<HtlcModel>, ledger: LedgerModel, list: Seq<Seq<u8>>) -> (
    Seq<HtlcModel>,
    LedgerModel,
)
    decreases list.len(),
{
    if list.len() == 0 {
        (htlcs, ledger)
    } else {
        let before = fail_all(htlcs, ledger, list.drop_last());
        (
            fail_table(before.0, list.last()),
            ledger_after_failure(before.1, before.0, list.last()),
        )
    }
}

/// Failing a list of payments changes nothing but the status of
/// entries that were pending, which become `Failed`, and leaves none of
/// the listed payments pending.
pub proof fn lemma_fail_all_shape(htlcs: Seq<HtlcModel>, ledger: LedgerModel, list: Seq<Seq<u8>>)
    requires
        unique_keys(htlcs),
    ensures
        ({
            let after = fail_all(htlcs, ledger, list).0;
            &&& after.len() == htlcs.len()
            &&& unique_keys(after)
            &&& forall|i: int|
                0 <= i < htlcs.len() ==> (#[trigger] after[i]) == htlcs[i] || (htlcs[i].status
                    == VirtualHtlcStatus::Pending && after[i] == htlcs[i].with_status(
                    VirtualHtlcStatus::Failed,
                ))
            &&& forall|k: int| 0 <= k < list.len() ==> !is_pending(after, #[trigger] list[k])
        }),
    decreases list.len(),
{
    if list.len() > 0 {
        let rest = list.drop_last();
        let last = list.last();
        lemma_fail_all_shape(htlcs, ledger, rest);
        let before = fail_all(htlcs, ledger, rest).0;
        let after = fail_table(before, last);
        assert(fail_all(htlcs, ledger, list).0 == after);
        if is_pending(before, last) {
            let i = index_of(before, last);
            assert(row_at(before, last, i));
            let failed = before[i].with_status(VirtualHtlcStatus::Failed);
            lemma_put_replaces(before, failed, i);
            lemma_put(before, failed);
            assert(after == before.update(i, failed));
            assert(before[i] == htlcs[i]);
            assert forall|j: int| 0 <= j < htlcs.len() implies (#[trigger] after[j]) == htlcs[j]
                || (htlcs[j].status == VirtualHtlcStatus::Pending && after[j]
                == htlcs[j].with_status(VirtualHtlcStatus::Failed)) by {
                assert(before[j] == htlcs[j] || (htlcs[j].status == VirtualHtlcStatus::Pending
                    && before[j] == htlcs[j].with_status(VirtualHtlcStatus::Failed)));
            }
            assert forall|k: int| 0 <= k < list.len() implies !is_pending(
                after,
                #[trigger] list[k],
            ) by {
                if list[k] != last {
                    assert(rest[k] == list[k]);
                    assert(!is_pending(before, rest[k]));
                }
            }
        } else {
            assert forall|k: int| 0 <= k < list.len() implies !is_pending(
                after,
                #[trigger] list[k],
            ) by {
                if k < rest.len() {
                    assert(rest[k] == list[k]);
                }
            }
        }
    }
}

/// After the expired payments were failed, no pending payment is
/// expired: none stays pending beyond its deadline.
pub proof fn lemma_sweep_leaves_no_expired(
    htlcs: Seq<HtlcModel>,
    created: Seq<u64>,
    ledger: LedgerModel,
    clock: u64,
    max_age: u64,
)
    requires
        unique_keys(htlcs),
        created.len() == htlcs.len(),
    ensures
        ({
            let after = fail_all(
                htlcs,
                ledger,
                expired_hashes(htlcs, created, clock, max_age),
            ).0;
            &&& after.len() == htlcs.len()
            &&& forall|i: int|
                0 <= i < after.len() && (#[trigger] after[i]).status == VirtualHtlcStatus::Pending
                    ==> !is_expired(created[i], clock, max_age)
        }),
{
    let list = expired_hashes(htlcs, created, clock, max_age);
    let after = fail_all(htlcs, ledger, list).0;
    lemma_fail_all_shape(htlcs, ledger, list);
    assert forall|i: int|
        0 <= i < after.len() && (#[trigger] after[i]).status
            == VirtualHtlcStatus::Pending implies !is_expired(created[i], clock, max_age) by {
        if is_expired(created[i], clock, max_age) {
            assert(after[i] == htlcs[i]);
            lemma_expired_hashes_complete(htlcs, created, clock, max_age, i);
            let k = choose|k: int| 0 <= k < list.len() && list[k] == htlcs[i].payment_hash;
            assert(!is_pending(after, list[k]));
            assert(row_at(after, htlcs[i].payment_hash, i));
            lemma_index_of(after, htlcs[i].payment_hash, i);
        }
    }
}

/// The router: the settlement ledger, the balance ledger, and the key
/// manager that invoices take their preimages from.
pub struct VirtualRouter {
    htlc_manager: VirtualHtlcManager,
    balance_manager: VirtualBalanceManager,
    keys_manager: Arc<KeysManager>,
}

impl VirtualRouter {
    /// The entries of the settlement ledger.
    pub closed spec fn htlcs(&self) -> Seq<HtlcModel> {
        self.htlc_manager.htlcs()
    }

    /// The ownership registry.
    pub closed spec fn registry(&self) -> VirtualChannelManager {
        self.htlc_manager.registry()
    }

    /// When each entry of the settlement ledger was created.
    pub closed spec fn created(&self) -> Seq<u64> {
        self.htlc_manager.created()
    }

    /// The time as the router was last told.
    pub closed spec fn clock(&self) -> u64 {
        self.htlc_manager.clock()
    }

    /// The balances.
    pub closed spec fn ledger(&self) -> LedgerModel {
        self.balance_manager@
    }

    /// Both ledgers are well formed, and every pending payment is
    /// covered by a reservation of its sender.
    pub closed spec fn wf(&self) -> bool {
        &&& self.htlc_manager.wf()
        &&& self.balance_manager.wf()
        &&& covered(self.htlc_manager.htlcs(), self.balance_manager@)
    }

    /// A well-formed router has well-formed parts.
    pub proof fn lemma_wf(&self)
        requires
            self.wf(),
        ensures
            unique_keys(self.htlcs()),
            self.registry().wf(),
            self.ledger().wf(),
            covered(self.htlcs(), self.ledger()),
    {
        self.balance_manager.lemma_wf_model();
    }

    /// A router over the two ledgers.
    pub fn new(
        htlc_manager: VirtualHtlcManager,
        balance_manager: VirtualBalanceManager,
        keys_manager: Arc<KeysManager>,
    ) -> (res: VirtualRouter)
        requires
            htlc_manager.wf(),
            balance_manager.wf(),
            covered(htlc_manager.htlcs(), balance_manager@),
        ensures
            res.wf(),
            res.htlcs() == htlc_manager.htlcs(),
            res.created() == htlc_manager.created(),
            res.clock() == htlc_manager.clock(),
            res.registry() == htlc_manager.registry(),
            res.ledger() == balance_manager@,
    {
        VirtualRouter { htlc_manager, balance_manager, keys_manager }
    }

    /// The settlement ledger.
    pub fn htlc_manager(&self) -> (res: &VirtualHtlcManager)
        ensures
            res.htlcs() == self.htlcs(),
            res.registry() == self.registry(),
            self.wf() ==> res.wf(),
    {
        &self.htlc_manager
    }

    /// The balance ledger.
    pub fn balance_manager(&self) -> (res: &VirtualBalanceManager)
        ensures
            res@ == self.ledger(),
            self.wf() ==> res.wf(),
    {
        &self.balance_manager
    }

    /// Tells the router the time. The router's time never goes back.
    pub fn advance_clock(&mut self, now: u64)
        requires
            old(self).wf(),
        ensures
            final(self).wf(),
            final(self).clock() == if now > old(self).clock() {
                now
            } else {
                old(self).clock()
            },
            final(self).htlcs() == old(self).htlcs(),
            final(self).created() == old(self).created(),
            final(self).registry() == old(self).registry(),
            final(self).ledger() == old(self).ledger(),
    {
        self.htlc_manager.advance_clock(now);
    }

    /// Fails every pending payment that is at least `max_age` old by
    /// the router's time, and frees its reservation: each of them as
    /// `fail_virtual_payment` does, oldest first. Returns the payments
    /// that were failed.
    pub fn sweep_expired(&mut self, max_age: u64) -> (res: Vec<PaymentHash>)
        requires
            old(self).wf(),
        ensures
            final(self).wf(),
            hash_views(res@) == expired_hashes(
                old(self).htlcs(),
                old(self).created(),
                old(self).clock(),
                max_age,
            ),
            (final(self).htlcs(), final(self).ledger()) == fail_all(
                old(self).htlcs(),
                old(self).ledger(),
                hash_views(res@),
            ),
            final(self).created() == old(self).created(),
            final(self).clock() == old(self).clock(),
            final(self).registry() == old(self).registry(),
    {
        let expired = self.htlc_manager.expired_payments(max_age);
        let ghost htlcs = self.htlcs();
        let ghost ledger = self.ledger();
        let ghost list = hash_views(expired@);
        let mut i: usize = 0;
        assert(list.take(0) =~= Seq::<Seq<u8>>::empty());
        while i < expired.len()
            invariant
                i <= expired@.len(),
                list == hash_views(expired@),
                self.wf(),
                (self.htlcs(), self.ledger()) == fail_all(htlcs, ledger, list.take(i as int)),
                self.created() == old(self).created(),
                self.clock() == old(self).clock(),
                self.registry() == old(self).registry(),
            decreases expired@.len() - i,
        {
            assert(list.take(i as int + 1).drop_last() =~= list.take(i as int));
            assert(list.take(i as int + 1).last() == expired@[i as int]@);
            self.fail_virtual_payment(expired[i]);
            i += 1;
        }
        assert(list.take(i as int) =~= list);
        expired
    }

    /// Registers `virtual_node_id` as the owner of `channel_id` in the
    /// ownership registry. A channel that is registered already gets
    /// the new owner.
    pub fn map_channel_to_virtual_node(
        &mut self,
        channel_id: &str,
        virtual_node_id: &str,
        user_id: &str,
    )
        requires
            old(self).wf(),
        ensures
            final(self).wf(),
            final(self).htlcs() == old(self).htlcs(),
            final(self).created() == old(self).created(),
            final(self).clock() == old(self).clock(),
            final(self).ledger() == old(self).ledger(),
            final(self).registry().payments() == old(self).registry().payments(),
            final(self).registry().owner_of(channel_id@) == Some(virtual_node_id@),
            forall|other: Seq<char>|
                other != channel_id@ ==> final(self).registry().owner_of(other) == old(
                    self,
                ).registry().owner_of(other),
    {
        self.htlc_manager.map_channel_to_virtual_node(channel_id, virtual_node_id, user_id);
    }

    /// Adds `amount` of the currency to what `virtual_node` holds.
    pub fn deposit_btc(&mut self, virtual_node: &PublicKey, amount: u64)
        requires
            old(self).wf(),
        ensures
            final(self).wf(),
            final(self).ledger() == old(self).ledger().with_btc(
                virtual_node@,
                old(self).ledger().btc[virtual_node@].credit(amount),
            ),
            final(self).htlcs() == old(self).htlcs(),
            final(self).created() == old(self).created(),
            final(self).clock() == old(self).clock(),
            final(self).registry() == old(self).registry(),
    {
        proof {
            lemma_covered_after_deposit(
                self.htlcs(),
                self.ledger(),
                virtual_node@,
                Seq::<char>::empty(),
                amount,
            );
        }
        self.balance_manager.deposit_btc(virtual_node, amount);
    }

    /// Adds `amount` of the tokens of `contract_id` to what
    /// `virtual_node` holds.
    pub fn deposit_rgb(&mut self, virtual_node: &PublicKey, contract_id: &ContractId, amount: u64)
        requires
            old(self).wf(),
        ensures
            final(self).wf(),
            final(self).ledger() == old(self).ledger().with_rgb(
                virtual_node@,
                contract_id@,
                old(self).ledger().rgb[(virtual_node@, contract_id@)].credit(amount),
            ),
            final(self).htlcs() == old(self).htlcs(),
            final(self).created() == old(self).created(),
            final(self).clock() == old(self).clock(),
            final(self).registry() == old(self).registry(),
    {
        proof {
            lemma_covered_after_deposit(
                self.htlcs(),
                self.ledger(),
                virtual_node@,
                contract_id@,
                amount,
            );
        }
        self.balance_manager.deposit_rgb(virtual_node, contract_id, amount);
    }

    /// Starts a payment: checks that the sender can commit the amounts
    /// and reserves them, then creates the pending HTLC and registers the
    /// payment for both parties.
    ///
    /// Fails with `InsufficientBalance` where the sender cannot commit
    /// the amounts, else with `HtlcCreation` where an HTLC with the
    /// payment hash exists. A failed call changes nothing: no HTLC, no
    /// ownership row, no reservation.
    pub fn send_virtual_payment(
        &mut self,
        from_virtual_node: PublicKey,
        to_virtual_node: PublicKey,
        btc_amount_msat: u64,
        rgb_transfer: Option<RgbTransfer>,
        payment_hash: PaymentHash,
    ) -> (res: Result<(), VirtualRouterError>)
        requires
            old(self).wf(),
        ensures
            final(self).wf(),
            match old(self).ledger().sufficiency(
                from_virtual_node@,
                btc_amount_msat,
                transfer_model(rgb_transfer),
            ) {
                Err(failure) => {
                    &&& res matches Err(VirtualRouterError::InsufficientBalance(e))
                    &&& e@ == failure
                },
                Ok(_) => if has_key(old(self).htlcs(), payment_hash@) {
                    res matches Err(
                        VirtualRouterError::HtlcCreation(VirtualHtlcError::DuplicatePaymentHash),
                    )
                } else {
                    res is Ok
                },
            },
            final(self).clock() == old(self).clock(),
            res is Err ==> {
                &&& final(self).htlcs() == old(self).htlcs()
                &&& final(self).created() == old(self).created()
                &&& final(self).registry() == old(self).registry()
                &&& final(self).ledger() == old(self).ledger()
            },
            res is Ok ==> final(self).created() == old(self).created().push(old(self).clock()),
            res is Ok ==> {
                &&& final(self).ledger() == old(self).ledger().reserve(
                    from_virtual_node@,
                    btc_amount_msat,
                    transfer_model(rgb_transfer),
                )
                &&& final(self).htlcs() == old(self).htlcs().push(
                    pending_htlc(
                        payment_hash@,
                        from_virtual_node@,
                        to_virtual_node@,
                        btc_amount_msat,
                        transfer_model(rgb_transfer),
                    ),
                )
                &&& is_pending(final(self).htlcs(), payment_hash@)
                &&& final(self).registry().payments() == with_htlc_rows(
                    old(self).registry().payments(),
                    payment_hash@,
                    from_virtual_node@,
                    to_virtual_node@,
                )
                &&& final(self).registry().channels() == old(self).registry().channels()
            },
    {
        match self.balance_manager.check_sufficient_balance(
            &from_virtual_node,
            btc_amount_msat,
            rgb_transfer.as_ref(),
        ) {
            Ok(()) => {},
            Err(e) => {
                return Err(VirtualRouterError::InsufficientBalance(e));
            },
        }
        if self.htlc_manager.contains(&payment_hash) {
            return Err(VirtualRouterError::HtlcCreation(VirtualHtlcError::DuplicatePaymentHash));
        }
        proof {
            self.balance_manager.lemma_wf_model();
            lemma_covered_after_send(
                self.htlcs(),
                self.ledger(),
                pending_htlc(
                    payment_hash@,
                    from_virtual_node@,
                    to_virtual_node@,
                    btc_amount_msat,
                    transfer_model(rgb_transfer),
                ),
            );
        }
        match self.balance_manager.reserve(
            &from_virtual_node,
            btc_amount_msat,
            rgb_transfer.as_ref(),
        ) {
            Ok(()) => {},
            Err(e) => {
                return Err(VirtualRouterError::InsufficientBalance(e));
            },
        }
        match self.htlc_manager.create_virtual_htlc(
            payment_hash,
            from_virtual_node,
            to_virtual_node,
            btc_amount_msat,
            rgb_transfer,
        ) {
            Ok(()) => Ok(()),
            Err(e) => Err(VirtualRouterError::HtlcCreation(e)),
        }
    }

    /// Settles a payment, given the digest of the preimage: settles the
    /// HTLC and, where that succeeds, moves both legs between the
    /// balances within the same call. Where the HTLC cannot be settled
    /// the call fails with `Settlement` and changes nothing.
    pub fn settle_virtual_payment_with_digest(
        &mut self,
        payment_hash: PaymentHash,
        preimage: PaymentPreimage,
        digest: &[u8; 32],
    ) -> (res: Result<VirtualSettlement, VirtualRouterError>)
        requires
            old(self).wf(),
        ensures
            final(self).wf(),
            final(self).htlcs() == settle_table(old(self).htlcs(), payment_hash@, digest@),
            final(self).created() == old(self).created(),
            final(self).clock() == old(self).clock(),
            final(self).registry() == old(self).registry(),
            final(self).ledger() == ledger_after_settle(
                old(self).ledger(),
                old(self).htlcs(),
                payment_hash@,
                preimage@,
                digest@,
            ),
            match res {
                Ok(settlement) => settle_result(
                    old(self).htlcs(),
                    payment_hash@,
                    preimage@,
                    digest@,
                ) == Ok::<SettlementModel, VirtualHtlcError>(settlement@),
                Err(e) => e matches VirtualRouterError::Settlement(cause) && settle_result(
                    old(self).htlcs(),
                    payment_hash@,
                    preimage@,
                    digest@,
                ) == Err::<SettlementModel, VirtualHtlcError>(cause),
            },
    {
        proof {
            self.balance_manager.lemma_wf_model();
            lemma_covered_after_settle(
                self.htlcs(),
                self.ledger(),
                payment_hash@,
                preimage@,
                digest@,
            );
        }
        let settlement = match self.htlc_manager.settle_with_digest(
            payment_hash,
            preimage,
            digest,
        ) {
            Ok(settlement) => settlement,
            Err(e) => {
                return Err(VirtualRouterError::Settlement(e));
            },
        };
        match self.balance_manager.apply_settlement(&settlement) {
            Ok(()) => Ok(settlement),
            Err(e) => Err(VirtualRouterError::BalanceUpdate(e)),
        }
    }

    /// Settles a payment with the preimage that the payment engine
    /// reported: fails with `Settlement(HtlcNotFound)` where no pending
    /// HTLC has the payment hash, with `Settlement(InvalidPreimage)`
    /// where the digest of the preimage is not the payment hash, and
    /// otherwise settles the HTLC and moves both legs between the
    /// balances within the same call.
    pub fn settle_virtual_payment(&mut self, payment_hash: PaymentHash, preimage: PaymentPreimage) -> (res:
        Result<VirtualSettlement, VirtualRouterError>)
        requires
            old(self).wf(),
        ensures
            final(self).wf(),
            final(self).htlcs() == settle_table(
                old(self).htlcs(),
                payment_hash@,
                bitcoin_sha256(preimage@),
            ),
            final(self).created() == old(self).created(),
            final(self).clock() == old(self).clock(),
            final(self).registry() == old(self).registry(),
            final(self).ledger() == ledger_after_settle(
                old(self).ledger(),
                old(self).htlcs(),
                payment_hash@,
                preimage@,
                bitcoin_sha256(preimage@),
            ),
            match res {
                Ok(settlement) => settle_result(
                    old(self).htlcs(),
                    payment_hash@,
                    preimage@,
                    bitcoin_sha256(preimage@),
                ) == Ok::<SettlementModel, VirtualHtlcError>(settlement@),
                Err(e) => e matches VirtualRouterError::Settlement(cause) && settle_result(
                    old(self).htlcs(),
                    payment_hash@,
                    preimage@,
                    bitcoin_sha256(preimage@),
                ) == Err::<SettlementModel, VirtualHtlcError>(cause),
            },
    {
        let digest = bitcoin_sha256_digest(&preimage.0);
        self.settle_virtual_payment_with_digest(payment_hash, preimage, &digest)
    }

    /// Fails a payment that the payment engine gave up: the pending HTLC
    /// becomes `Failed` and the sender's reservation is freed. A payment
    /// that is not pending is left as it is.
    pub fn fail_virtual_payment(&mut self, payment_hash: PaymentHash)
        requires
            old(self).wf(),
        ensures
            final(self).wf(),
            final(self).htlcs() == fail_table(old(self).htlcs(), payment_hash@),
            final(self).created() == old(self).created(),
            final(self).clock() == old(self).clock(),
            final(self).registry() == old(self).registry(),
            final(self).ledger() == ledger_after_failure(
                old(self).ledger(),
                old(self).htlcs(),
                payment_hash@,
            ),
    {
        proof {
            self.balance_manager.lemma_wf_model();
            lemma_covered_after_failure(self.htlcs(), self.ledger(), payment_hash@);
        }
        match self.htlc_manager.get(&payment_hash) {
            Some(htlc) => {
                match htlc.status {
                    crate::virtual_htlc::VirtualHtlcStatus::Pending => {
                        self.balance_manager.release(
                            &htlc.from_virtual_node,
                            htlc.btc_amount_msat,
                            htlc.rgb_transfer.as_ref(),
                        );
                    },
                    _ => {},
                }
            },
            None => {},
        }
        let _ = self.htlc_manager.fail_virtual_htlc(payment_hash);
    }

    /// Acts on what the payment engine reports of a payment in flight: a
    /// preimage settles it, a failure fails it and frees the
    /// reservation. Returns the settled payment, `Settlement` where the
    /// preimage does not settle it, and `RoutingFailed` after a reported
    /// failure.
    pub fn complete_virtual_payment(&mut self, payment_hash: PaymentHash, signal: PaymentSignal) -> (res:
        Result<VirtualPaymentResult, VirtualRouterError>)
        requires
            old(self).wf(),
        ensures
            final(self).wf(),
            final(self).created() == old(self).created(),
            final(self).clock() == old(self).clock(),
            final(self).registry() == old(self).registry(),
            match signal {
                PaymentSignal::Settled(preimage) => {
                    &&& final(self).htlcs() == settle_table(
                        old(self).htlcs(),
                        payment_hash@,
                        bitcoin_sha256(preimage@),
                    )
                    &&& final(self).ledger() == ledger_after_settle(
                        old(self).ledger(),
                        old(self).htlcs(),
                        payment_hash@,
                        preimage@,
                        bitcoin_sha256(preimage@),
                    )
                    &&& match res {
                        Ok(paid) => {
                            &&& paid.payment_hash@ == payment_hash@
                            &&& paid.preimage@ == preimage@
                            &&& settle_result(
                                old(self).htlcs(),
                                payment_hash@,
                                preimage@,
                                bitcoin_sha256(preimage@),
                            ) == Ok::<SettlementModel, VirtualHtlcError>(paid.settlement@)
                        },
                        Err(e) => e matches VirtualRouterError::Settlement(cause) && settle_result(
                            old(self).htlcs(),
                            payment_hash@,
                            preimage@,
                            bitcoin_sha256(preimage@),
                        ) == Err::<SettlementModel, VirtualHtlcError>(cause),
                    }
                },
                PaymentSignal::Failed => {
                    &&& final(self).htlcs() == fail_table(old(self).htlcs(), payment_hash@)
                    &&& final(self).ledger() == ledger_after_failure(
                        old(self).ledger(),
                        old(self).htlcs(),
                        payment_hash@,
                    )
                    &&& res matches Err(VirtualRouterError::RoutingFailed(_))
                },
            },
    {
        match signal {
            PaymentSignal::Settled(preimage) => {
                match self.settle_virtual_payment(payment_hash, preimage) {
                    Ok(settlement) => Ok(VirtualPaymentResult { payment_hash, preimage, settlement }),
                    Err(e) => Err(e),
                }
            },
            PaymentSignal::Failed => {
                self.fail_virtual_payment(payment_hash);
                Err(VirtualRouterError::RoutingFailed(String::from_str("payment failed")))
            },
        }
    }

    /// The invoice for the given preimage, whose digest is `digest`.
    pub fn invoice_for_preimage(
        virtual_node: PublicKey,
        btc_amount_msat: Option<u64>,
        rgb_request: Option<RgbInvoiceRequest>,
        expiry_sec: u32,
        preimage: PaymentPreimage,
        digest: [u8; 32],
    ) -> (res: VirtualInvoice)
        ensures
            res.virtual_node@ == virtual_node@,
            res.payment_hash@ == digest@,
            res.preimage@ == preimage@,
            res.btc_amount_msat == btc_amount_msat,
            request_model(res.rgb_request) == request_model(rgb_request),
            res.expiry_sec == expiry_sec,
    {
        VirtualInvoice {
            virtual_node,
            payment_hash: PaymentHash(digest),
            preimage,
            btc_amount_msat,
            rgb_request,
            expiry_sec,
        }
    }

    /// Creates an invoice for `virtual_node` over a fresh random
    /// preimage: its payment hash is the digest of that preimage, and
    /// the amounts and the expiry are the ones given.
    pub fn create_virtual_invoice(
        &self,
        virtual_node: PublicKey,
        btc_amount_msat: Option<u64>,
        rgb_request: Option<RgbInvoiceRequest>,
        expiry_sec: u32,
    ) -> (res: Result<VirtualInvoice, VirtualRouterError>)
        ensures
            res matches Ok(invoice) && {
                &&& invoice.virtual_node@ == virtual_node@
                &&& invoice.payment_hash@ == bitcoin_sha256(invoice.preimage@)
                &&& invoice.btc_amount_msat == btc_amount_msat
                &&& request_model(invoice.rgb_request) == request_model(rgb_request)
                &&& invoice.expiry_sec == expiry_sec
            },
    {
        let preimage = PaymentPreimage(secure_random_bytes(&self.keys_manager));
        let digest = bitcoin_sha256_digest(&preimage.0);
        Ok(
            VirtualRouter::invoice_for_preimage(
                virtual_node,
                btc_amount_msat,
                rgb_request,
                expiry_sec,
                preimage,
                digest,
            ),
        )
    }

    /// Starts the payment that `invoice` asks for, from
    /// `from_virtual_node`: the receiver, the payment hash and the
    /// amounts are the invoice's, and an amount that the invoice leaves
    /// open is zero.
    pub fn pay_virtual_invoice(&mut self, from_virtual_node: PublicKey, invoice: &VirtualInvoice) -> (res:
        Result<(), VirtualRouterError>)
        requires
            old(self).wf(),
        ensures
            final(self).wf(),
            match old(self).ledger().sufficiency(
                from_virtual_node@,
                invoice_amount(invoice.btc_amount_msat),
                request_model(invoice.rgb_request),
            ) {
                Err(failure) => {
                    &&& res matches Err(VirtualRouterError::InsufficientBalance(e))
                    &&& e@ == failure
                },
                Ok(_) => if has_key(old(self).htlcs(), invoice.payment_hash@) {
                    res matches Err(
                        VirtualRouterError::HtlcCreation(VirtualHtlcError::DuplicatePaymentHash),
                    )
                } else {
                    res is Ok
                },
            },
            final(self).clock() == old(self).clock(),
            res is Err ==> {
                &&& final(self).htlcs() == old(self).htlcs()
                &&& final(self).created() == old(self).created()
                &&& final(self).registry() == old(self).registry()
                &&& final(self).ledger() == old(self).ledger()
            },
            res is Ok ==> final(self).created() == old(self).created().push(old(self).clock()),
            res is Ok ==> {
                &&& final(self).ledger() == old(self).ledger().reserve(
                    from_virtual_node@,
                    invoice_amount(invoice.btc_amount_msat),
                    request_model(invoice.rgb_request),
                )
                &&& final(self).htlcs() == old(self).htlcs().push(
                    pending_htlc(
                        invoice.payment_hash@,
                        from_virtual_node@,
                        invoice.virtual_node@,
                        invoice_amount(invoice.btc_amount_msat),
                        request_model(invoice.rgb_request),
                    ),
                )
                &&& final(self).registry().payments() == with_htlc_rows(
                    old(self).registry().payments(),
                    invoice.payment_hash@,
                    from_virtual_node@,
                    invoice.virtual_node@,
                )
                &&& final(self).registry().channels() == old(self).registry().channels()
            },
    {
        let rgb_transfer = transfer_for_request(&invoice.rgb_request);
        let amount = match invoice.btc_amount_msat {
            Some(amount) => amount,
            None => 0,
        };
        self.send_virtual_payment(
            from_virtual_node,
            invoice.virtual_node,
            amount,
            rgb_transfer,
            invoice.payment_hash,
        )
    }
}

/// The currency amount of an invoice: zero where it is left open.
pub open spec fn invoice_amount(amount: Option<u64>) -> u64 {
    match amount {
        Some(a) => a,
        None => 0,
    }
}

} // verus!
