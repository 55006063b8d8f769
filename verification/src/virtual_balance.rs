//! The balance ledger: what every virtual node holds of the currency and
//! of each token contract, and what of it is reserved for payments in
//! flight.
//!
//! A payment first reserves its amounts, in one step with the check that
//! they are covered. The settlement then moves them. A balance never goes
//! below zero: a debit that exceeds it leaves zero.

use crate::table::lemma_absent;
use crate::table::lemma_index_of;
use crate::table::lemma_put;
use crate::table::lemma_put_appends;
use crate::table::lemma_put_replaces;
use crate::table::lookup;
use crate::table::put;
use crate::table::row_at;
use crate::table::unique_keys;
use crate::table::Keyed;
use crate::types::ContractId;
use crate::types::PublicKey;
use crate::virtual_htlc::RgbTransfer;
use crate::virtual_htlc::SettlementModel;
use crate::virtual_htlc::TransferModel;
use crate::virtual_htlc::VirtualSettlement;
use vstd::prelude::*;

verus! {

/// `a - b`, or zero where `b` exceeds `a`.
pub open spec fn floor_sub(a: u64, b: u64) -> u64 {
    if a >= b {
        (a - b) as u64
    } else {
        0
    }
}

/// `a + b`, or the largest amount where the sum exceeds it.
pub open spec fn ceil_add(a: u64, b: u64) -> u64 {
    if a + b <= u64::MAX {
        (a + b) as u64
    } else {
        u64::MAX
    }
}

/// What one node holds of one asset.
#[derive(Clone, Copy, Debug, PartialEq, Eq, Structural)]
pub struct Account {
    /// All that the node holds.
    pub balance: u64,
    /// The part of it that payments in flight have reserved.
    pub reserved: u64,
}

impl Account {
    /// An account that holds nothing.
    pub open spec fn zero() -> Account {
        Account { balance: 0, reserved: 0 }
    }

    /// No more is reserved than is held.
    pub open spec fn wf(self) -> bool {
        self.reserved <= self.balance
    }

    /// What the node can still commit.
    pub open spec fn available(self) -> u64 {
        floor_sub(self.balance, self.reserved)
    }

    /// The account after `amount` left it: the balance falls by it, but
    /// not below zero, and so does the reservation that covered it.
    pub open spec fn debit(self, amount: u64) -> Account {
        Account {
            balance: floor_sub(self.balance, amount),
            reserved: floor_sub(self.reserved, amount),
        }
    }

    /// The account after `amount` reached it.
    pub open spec fn credit(self, amount: u64) -> Account {
        Account { balance: ceil_add(self.balance, amount), reserved: self.reserved }
    }

    /// The account after `amount` more was reserved.
    pub open spec fn reserve(self, amount: u64) -> Account {
        Account { balance: self.balance, reserved: ceil_add(self.reserved, amount) }
    }

    /// The account after a reservation of `amount` was given up.
    pub open spec fn release(self, amount: u64) -> Account {
        Account { balance: self.balance, reserved: floor_sub(self.reserved, amount) }
    }
}

/// Why an operation on the balance ledger failed.
#[derive(Debug)]
pub enum BalanceError {
    /// The currency that the node can commit does not cover the amount.
    InsufficientBtc { required: u64, available: u64 },
    /// The tokens that the node can commit do not cover the amount.
    InsufficientRgb { contract_id: String, required: u64, available: u64 },
    /// The durable store failed.
    Database(String),
    /// The wallet did not accept the transaction for broadcast.
    OnchainBroadcast(String),
}

/// What a balance error says.
pub enum BalanceFailure {
    InsufficientBtc { required: u64, available: u64 },
    InsufficientRgb { contract_id: Seq<char>, required: u64, available: u64 },
    Database(Seq<char>),
    OnchainBroadcast(Seq<char>),
}

impl View for BalanceError {
    type V = BalanceFailure;

    open spec fn view(&self) -> BalanceFailure {
        match self {
            BalanceError::InsufficientBtc { required, available } => BalanceFailure::InsufficientBtc {
                required: *required,
                available: *available,
            },
            BalanceError::InsufficientRgb {
                contract_id,
                required,
                available,
            } => BalanceFailure::InsufficientRgb {
                contract_id: contract_id@,
                required: *required,
                available: *available,
            },
            BalanceError::Database(detail) => BalanceFailure::Database(detail@),
            BalanceError::OnchainBroadcast(detail) => BalanceFailure::OnchainBroadcast(detail@),
        }
    }
}

impl BalanceError {
    /// The error in words.
    pub open spec fn spec_message(&self) -> Seq<char> {
        match self {
            BalanceError::InsufficientBtc { .. } => "Insufficient BTC balance"@,
            BalanceError::InsufficientRgb { .. } => "Insufficient RGB balance"@,
            BalanceError::Database(detail) => "Database error: "@ + detail@,
            BalanceError::OnchainBroadcast(detail) => "On-chain broadcast failed: "@ + detail@,
        }
    }

    /// The error in words.
    pub fn message(&self) -> (res: String)
        ensures
            res@ == self.spec_message(),
    {
        match self {
            BalanceError::InsufficientBtc { .. } => String::from_str("Insufficient BTC balance"),
            BalanceError::InsufficientRgb { .. } => String::from_str("Insufficient RGB balance"),
            BalanceError::Database(detail) => String::from_str("Database error: ").concat(
                detail.as_str(),
            ),
            BalanceError::OnchainBroadcast(detail) => String::from_str(
                "On-chain broadcast failed: ",
            ).concat(detail.as_str()),
        }
    }
}

/// The ledger as a whole: the account of every node for the currency,
/// and of every node and contract for the tokens. A node that was never
/// credited has the zero account.
#[verifier::ext_equal]
pub struct LedgerModel {
    pub btc: Map<Seq<u8>, Account>,
    pub rgb: Map<(Seq<u8>, Seq<char>), Account>,
}

impl LedgerModel {
    /// Every node has an account for every asset, and none has more
    /// reserved than it holds.
    pub open spec fn wf(self) -> bool {
        &&& forall|node: Seq<u8>| self.btc.dom().contains(node)
        &&& forall|key: (Seq<u8>, Seq<char>)| self.rgb.dom().contains(key)
        &&& forall|node: Seq<u8>| (#[trigger] self.btc[node]).wf()
        &&& forall|key: (Seq<u8>, Seq<char>)| (#[trigger] self.rgb[key]).wf()
    }

    /// The ledger with the currency account of `node` replaced.
    pub open spec fn with_btc(self, node: Seq<u8>, account: Account) -> LedgerModel {
        LedgerModel { btc: self.btc.insert(node, account), rgb: self.rgb }
    }

    /// The ledger with the token account of `node` under `contract_id`
    /// replaced.
    pub open spec fn with_rgb(
        self,
        node: Seq<u8>,
        contract_id: Seq<char>,
        account: Account,
    ) -> LedgerModel {
        LedgerModel { btc: self.btc, rgb: self.rgb.insert((node, contract_id), account) }
    }

    /// The ledger after a settlement: the currency leaves the sender and
    /// reaches the receiver, and so does the token amount where the
    /// settlement has a token leg.
    pub open spec fn apply_settlement(self, settlement: SettlementModel) -> LedgerModel {
        let from = settlement.from_virtual_node;
        let to = settlement.to_virtual_node;
        let debited = self.with_btc(from, self.btc[from].debit(settlement.btc_settled));
        let moved = debited.with_btc(to, debited.btc[to].credit(settlement.btc_settled));
        match settlement.rgb_settled {
            Some(t) => {
                let taken = moved.with_rgb(
                    from,
                    t.contract_id,
                    moved.rgb[(from, t.contract_id)].debit(t.amount),
                );
                taken.with_rgb(to, t.contract_id, taken.rgb[(to, t.contract_id)].credit(t.amount))
            },
            None => moved,
        }
    }

    /// Whether `node` can commit `btc_amount` of the currency and the
    /// token leg, and if not, what is missing: the currency is looked at
    /// first.
    pub open spec fn sufficiency(
        self,
        node: Seq<u8>,
        btc_amount: u64,
        transfer: Option<TransferModel>,
    ) -> Result<(), BalanceFailure> {
        if self.btc[node].available() < btc_amount {
            Err(
                BalanceFailure::InsufficientBtc {
                    required: btc_amount,
                    available: self.btc[node].available(),
                },
            )
        } else {
            match transfer {
                Some(t) => if self.rgb[(node, t.contract_id)].available() < t.amount {
                    Err(
                        BalanceFailure::InsufficientRgb {
                            contract_id: t.contract_id,
                            required: t.amount,
                            available: self.rgb[(node, t.contract_id)].available(),
                        },
                    )
                } else {
                    Ok(())
                },
                None => Ok(()),
            }
        }
    }

    /// The ledger after `node` reserved the amounts of a payment.
    pub open spec fn reserve(
        self,
        node: Seq<u8>,
        btc_amount: u64,
        transfer: Option<TransferModel>,
    ) -> LedgerModel {
        let held = self.with_btc(node, self.btc[node].reserve(btc_amount));
        match transfer {
            Some(t) => held.with_rgb(
                node,
                t.contract_id,
                held.rgb[(node, t.contract_id)].reserve(t.amount),
            ),
            None => held,
        }
    }

    /// The ledger after `node` gave up the reservation of a payment.
    pub open spec fn release(
        self,
        node: Seq<u8>,
        btc_amount: u64,
        transfer: Option<TransferModel>,
    ) -> LedgerModel {
        let freed = self.with_btc(node, self.btc[node].release(btc_amount));
        match transfer {
            Some(t) => freed.with_rgb(
                node,
                t.contract_id,
                freed.rgb[(node, t.contract_id)].release(t.amount),
            ),
            None => freed,
        }
    }

    /// The ledger after a run of settlements, applied one after another.
    pub open spec fn apply_all(self, settlements: Seq<SettlementModel>) -> LedgerModel
        decreases settlements.len(),
    {
        if settlements.len() == 0 {
            self
        } else {
            self.apply_all(settlements.drop_last()).apply_settlement(settlements.last())
        }
    }
}

/// What an optional token leg, given by reference, says.
pub open spec fn transfer_ref_model(transfer: Option<&RgbTransfer>) -> Option<TransferModel> {
    match transfer {
        Some(t) => Some(t@),
        None => None,
    }
}

/// Debit, credit, reserve and release keep an account well formed, as
/// long as a reservation is covered by what is available.
pub proof fn lemma_account_steps(account: Account, amount: u64)
    requires
        account.wf(),
    ensures
        account.debit(amount).wf(),
        account.credit(amount).wf(),
        account.release(amount).wf(),
        account.available() >= amount ==> account.reserve(amount).wf() && account.reserve(
            amount,
        ).reserved == account.reserved + amount,
        account.debit(amount).balance as int >= 0,
        account.balance >= amount ==> account.debit(amount).balance == account.balance - amount,
{
}

/// A settlement keeps the ledger well formed.
pub proof fn lemma_settlement_keeps_wf(ledger: LedgerModel, settlement: SettlementModel)
    requires
        ledger.wf(),
    ensures
        ledger.apply_settlement(settlement).wf(),
{
    let from = settlement.from_virtual_node;
    let to = settlement.to_virtual_node;
    let debited = ledger.with_btc(from, ledger.btc[from].debit(settlement.btc_settled));
    assert(debited.wf());
    let moved = debited.with_btc(to, debited.btc[to].credit(settlement.btc_settled));
    assert(moved.wf());
    match settlement.rgb_settled {
        Some(t) => {
            let taken = moved.with_rgb(
                from,
                t.contract_id,
                moved.rgb[(from, t.contract_id)].debit(t.amount),
            );
            assert(taken.wf());
            let given = taken.with_rgb(
                to,
                t.contract_id,
                taken.rgb[(to, t.contract_id)].credit(t.amount),
            );
            assert(given.wf());
        },
        None => {},
    }
}

/// Both legs move in one step: where sender and receiver differ, the
/// sender covers both amounts and the receiver's balances have room, a
/// settlement takes exactly the currency amount and the token amount
/// from the sender, gives exactly them to the receiver, and touches no
/// other account.
pub proof fn lemma_settlement_moves_both_legs(ledger: LedgerModel, settlement: SettlementModel)
    requires
        ledger.wf(),
        settlement.from_virtual_node != settlement.to_virtual_node,
        ledger.btc[settlement.from_virtual_node].balance >= settlement.btc_settled,
        ledger.btc[settlement.to_virtual_node].balance + settlement.btc_settled <= u64::MAX,
        settlement.rgb_settled matches Some(t) ==> {
            &&& ledger.rgb[(settlement.from_virtual_node, t.contract_id)].balance >= t.amount
            &&& ledger.rgb[(settlement.to_virtual_node, t.contract_id)].balance + t.amount
                <= u64::MAX
        },
    ensures
        ({
            let after = ledger.apply_settlement(settlement);
            let from = settlement.from_virtual_node;
            let to = settlement.to_virtual_node;
            &&& after.btc[from].balance == ledger.btc[from].balance - settlement.btc_settled
            &&& after.btc[to].balance == ledger.btc[to].balance + settlement.btc_settled
            &&& forall|node: Seq<u8>|
                node != from && node != to ==> after.btc[node] == ledger.btc[node]
            &&& match settlement.rgb_settled {
                Some(t) => {
                    &&& after.rgb[(from, t.contract_id)].balance == ledger.rgb[(
                        from,
                        t.contract_id,
                    )].balance - t.amount
                    &&& after.rgb[(to, t.contract_id)].balance == ledger.rgb[(
                        to,
                        t.contract_id,
                    )].balance + t.amount
                    &&& forall|key: (Seq<u8>, Seq<char>)|
                        key != (from, t.contract_id) && key != (to, t.contract_id) ==> after.rgb[key]
                            == ledger.rgb[key]
                },
                None => after.rgb == ledger.rgb,
            }
        }),
{
}

/// The balance floor: however many settlements drain an account, in
/// whatever order, the ledger stays well formed after each of them, and
/// no balance is ever below zero.
pub proof fn lemma_balance_floor(ledger: LedgerModel, settlements: Seq<SettlementModel>)
    requires
        ledger.wf(),
    ensures
        forall|n: int|
            0 <= n <= settlements.len() ==> (#[trigger] ledger.apply_all(
                settlements.take(n),
            )).wf(),
        forall|n: int, node: Seq<u8>|
            0 <= n <= settlements.len() ==> (#[trigger] ledger.apply_all(
                settlements.take(n),
            ).btc[node]).balance as int >= 0,
        forall|n: int, key: (Seq<u8>, Seq<char>)|
            0 <= n <= settlements.len() ==> (#[trigger] ledger.apply_all(
                settlements.take(n),
            ).rgb[key]).balance as int >= 0,
{
    assert forall|n: int| 0 <= n <= settlements.len() implies (#[trigger] ledger.apply_all(
        settlements.take(n),
    )).wf() by {
        lemma_apply_all_keeps_wf(ledger, settlements.take(n));
    }
}

/// A run of settlements keeps the ledger well formed.
pub proof fn lemma_apply_all_keeps_wf(ledger: LedgerModel, settlements: Seq<SettlementModel>)
    requires
        ledger.wf(),
    ensures
        ledger.apply_all(settlements).wf(),
    decreases settlements.len(),
{
    if settlements.len() > 0 {
        lemma_apply_all_keeps_wf(ledger, settlements.drop_last());
        lemma_settlement_keeps_wf(ledger.apply_all(settlements.drop_last()), settlements.last());
    }
}

/// A reserved payment settles without the floor: where the sender had
/// reserved the amounts, the settlement takes them in full and the
/// reservation is used up by the same amounts.
pub proof fn lemma_reserved_settlement_is_exact(
    ledger: LedgerModel,
    settlement: SettlementModel,
)
    requires
        ledger.wf(),
        settlement.from_virtual_node != settlement.to_virtual_node,
        ledger.btc[settlement.from_virtual_node].reserved >= settlement.btc_settled,
    ensures
        ({
            let after = ledger.apply_settlement(settlement);
            let from = settlement.from_virtual_node;
            &&& after.btc[from].balance == ledger.btc[from].balance - settlement.btc_settled
            &&& after.btc[from].reserved == ledger.btc[from].reserved - settlement.btc_settled
        }),
{
}

/// The currency account of one node.
#[derive(Clone, Copy, Debug)]
struct BtcEntry {
    node: PublicKey,
    account: Account,
}

/// What a currency entry says.
pub struct BtcRow {
    pub node: Seq<u8>,
    pub account: Account,
}

impl View for BtcEntry {
    type V = BtcRow;

    closed spec fn view(&self) -> BtcRow {
        BtcRow { node: self.node@, account: self.account }
    }
}

impl Keyed for BtcRow {
    type Key = Seq<u8>;

    open spec fn key(&self) -> Seq<u8> {
        self.node
    }
}

/// The token account of one node under one contract.
#[derive(Clone, Debug)]
struct RgbEntry {
    node: PublicKey,
    contract_id: ContractId,
    account: Account,
}

/// What a token entry says.
pub struct RgbRow {
    pub node: Seq<u8>,
    pub contract_id: Seq<char>,
    pub account: Account,
}

impl View for RgbEntry {
    type V = RgbRow;

    closed spec fn view(&self) -> RgbRow {
        RgbRow { node: self.node@, contract_id: self.contract_id@, account: self.account }
    }
}

impl Keyed for RgbRow {
    type Key = (Seq<u8>, Seq<char>);

    open spec fn key(&self) -> (Seq<u8>, Seq<char>) {
        (self.node, self.contract_id)
    }
}

/// The account that the currency rows give to `node`.
pub open spec fn btc_account_in(rows: Seq<BtcRow>, node: Seq<u8>) -> Account {
    match lookup(rows, node) {
        Some(row) => row.account,
        None => Account::zero(),
    }
}

/// The account that the token rows give to `key`.
pub open spec fn rgb_account_in(rows: Seq<RgbRow>, key: (Seq<u8>, Seq<char>)) -> Account {
    match lookup(rows, key) {
        Some(row) => row.account,
        None => Account::zero(),
    }
}

/// The balance ledger.
pub struct VirtualBalanceManager {
    btc_balances: Vec<BtcEntry>,
    rgb_balances: Vec<RgbEntry>,
}

impl View for VirtualBalanceManager {
    type V = LedgerModel;

    closed spec fn view(&self) -> LedgerModel {
        LedgerModel {
            btc: Map::total(|node: Seq<u8>| btc_account_in(self.btc_rows(), node)),
            rgb: Map::total(|key: (Seq<u8>, Seq<char>)| rgb_account_in(self.rgb_rows(), key)),
        }
    }
}

impl VirtualBalanceManager {
    /// The currency rows.
    pub closed spec fn btc_rows(&self) -> Seq<BtcRow> {
        self.btc_balances@.map_values(|e: BtcEntry| e@)
    }

    /// The token rows.
    pub closed spec fn rgb_rows(&self) -> Seq<RgbRow> {
        self.rgb_balances@.map_values(|e: RgbEntry| e@)
    }

    /// Every account has one row, and no account has more reserved than
    /// it holds.
    pub closed spec fn wf(&self) -> bool {
        &&& unique_keys(self.btc_rows())
        &&& unique_keys(self.rgb_rows())
        &&& self@.wf()
    }

    /// A well-formed ledger has a well-formed model.
    pub proof fn lemma_wf_model(&self)
        requires
            self.wf(),
        ensures
            self@.wf(),
    {
    }

    /// A ledger in which every account is zero.
    pub fn new() -> (res: VirtualBalanceManager)
        ensures
            res.wf(),
            forall|node: Seq<u8>| res@.btc[node] == Account::zero(),
            forall|key: (Seq<u8>, Seq<char>)| res@.rgb[key] == Account::zero(),
    {
        let res = VirtualBalanceManager { btc_balances: Vec::new(), rgb_balances: Vec::new() };
        proof {
            assert(res.btc_rows() =~= Seq::<BtcRow>::empty());
            assert(res.rgb_rows() =~= Seq::<RgbRow>::empty());
            assert forall|node: Seq<u8>| res@.btc[node] == Account::zero() by {
                lemma_absent(res.btc_rows(), node);
            }
            assert forall|key: (Seq<u8>, Seq<char>)| res@.rgb[key] == Account::zero() by {
                lemma_absent(res.rgb_rows(), key);
            }
        }
        res
    }

    fn find_btc(&self, node: &PublicKey) -> (res: Option<usize>)
        ensures
            match res {
                Some(i) => row_at(self.btc_rows(), node@, i as int),
                None => forall|j: int|
                    0 <= j < self.btc_rows().len() ==> (#[trigger] self.btc_rows()[j]).key()
                        != node@,
            },
    {
        let mut i: usize = 0;
        while i < self.btc_balances.len()
            invariant
                i <= self.btc_balances@.len(),
                forall|j: int| 0 <= j < i ==> (#[trigger] self.btc_rows()[j]).key() != node@,
            decreases self.btc_balances@.len() - i,
        {
            if self.btc_balances[i].node == *node {
                return Some(i);
            }
            i += 1;
        }
        None
    }

    fn find_rgb(&self, node: &PublicKey, contract_id: &ContractId) -> (res: Option<usize>)
        ensures
            match res {
                Some(i) => row_at(self.rgb_rows(), (node@, contract_id@), i as int),
                None => forall|j: int|
                    0 <= j < self.rgb_rows().len() ==> (#[trigger] self.rgb_rows()[j]).key() != (
                        node@,
                        contract_id@,
                    ),
            },
    {
        let mut i: usize = 0;
        while i < self.rgb_balances.len()
            invariant
                i <= self.rgb_balances@.len(),
                forall|j: int|
                    0 <= j < i ==> (#[trigger] self.rgb_rows()[j]).key() != (node@, contract_id@),
            decreases self.rgb_balances@.len() - i,
        {
            if self.rgb_balances[i].node == *node && self.rgb_balances[i].contract_id
                == *contract_id {
                return Some(i);
            }
            i += 1;
        }
        None
    }

    /// The currency account of `virtual_node`.
    pub fn btc_account(&self, virtual_node: &PublicKey) -> (res: Account)
        requires
            self.wf(),
        ensures
            res == self@.btc[virtual_node@],
            res.wf(),
    {
        match self.find_btc(virtual_node) {
            Some(i) => {
                proof {
                    lemma_index_of(self.btc_rows(), virtual_node@, i as int);
                    assert(self@.btc[virtual_node@].wf());
                }
                self.btc_balances[i].account
            },
            None => {
                proof {
                    lemma_absent(self.btc_rows(), virtual_node@);
                }
                Account { balance: 0, reserved: 0 }
            },
        }
    }

    /// The token account of `virtual_node` under `contract_id`.
    pub fn rgb_account(&self, virtual_node: &PublicKey, contract_id: &ContractId) -> (res: Account)
        requires
            self.wf(),
        ensures
            res == self@.rgb[(virtual_node@, contract_id@)],
            res.wf(),
    {
        match self.find_rgb(virtual_node, contract_id) {
            Some(i) => {
                proof {
                    lemma_index_of(self.rgb_rows(), (virtual_node@, contract_id@), i as int);
                    assert(self@.rgb[(virtual_node@, contract_id@)].wf());
                }
                self.rgb_balances[i].account
            },
            None => {
                proof {
                    lemma_absent(self.rgb_rows(), (virtual_node@, contract_id@));
                }
                Account { balance: 0, reserved: 0 }
            },
        }
    }

    /// Replaces the currency account of `virtual_node`.
    fn set_btc_account(&mut self, virtual_node: &PublicKey, account: Account)
        requires
            old(self).wf(),
            account.wf(),
        ensures
            final(self).wf(),
            final(self)@ == old(self)@.with_btc(virtual_node@, account),
    {
        let entry = BtcEntry { node: *virtual_node, account };
        let ghost before = self.btc_rows();
        let ghost model = self@;
        proof {
            lemma_put(before, entry@);
        }
        match self.find_btc(virtual_node) {
            Some(i) => {
                proof {
                    lemma_put_replaces(before, entry@, i as int);
                }
                self.btc_balances.set(i, entry);
                assert(self.btc_rows() =~= before.update(i as int, entry@));
            },
            None => {
                proof {
                    lemma_put_appends(before, entry@);
                }
                self.btc_balances.push(entry);
                assert(self.btc_rows() =~= before.push(entry@));
            },
        }
        proof {
            assert(self.btc_rows() == put(before, entry@));
            assert(self@.btc =~= model.btc.insert(virtual_node@, account));
            assert(self@.rgb =~= model.rgb);
            assert(self@ =~= model.with_btc(virtual_node@, account));
        }
    }

    /// Replaces the token account of `virtual_node` under `contract_id`.
    fn set_rgb_account(
        &mut self,
        virtual_node: &PublicKey,
        contract_id: &ContractId,
        account: Account,
    )
        requires
            old(self).wf(),
            account.wf(),
        ensures
            final(self).wf(),
            final(self)@ == old(self)@.with_rgb(virtual_node@, contract_id@, account),
    {
        let entry = RgbEntry {
            node: *virtual_node,
            contract_id: contract_id.duplicate(),
            account,
        };
        let ghost before = self.rgb_rows();
        let ghost model = self@;
        proof {
            lemma_put(before, entry@);
        }
        match self.find_rgb(virtual_node, contract_id) {
            Some(i) => {
                proof {
                    lemma_put_replaces(before, entry@, i as int);
                }
                self.rgb_balances.set(i, entry);
                assert(self.rgb_rows() =~= before.update(i as int, entry@));
            },
            None => {
                proof {
                    lemma_put_appends(before, entry@);
                }
                self.rgb_balances.push(entry);
                assert(self.rgb_rows() =~= before.push(entry@));
            },
        }
        proof {
            assert(self.rgb_rows() == put(before, entry@));
            assert(self@.rgb =~= model.rgb.insert((virtual_node@, contract_id@), account));
            assert(self@.btc =~= model.btc);
            assert(self@ =~= model.with_rgb(virtual_node@, contract_id@, account));
        }
    }

    /// Adds `amount` to the currency balance of `virtual_node`, or takes
    /// it away, keeping the balance between zero and the largest amount.
    /// A debit uses up the reservation that covered it.
    fn update_btc_balance(&mut self, virtual_node: &PublicKey, credit: bool, amount: u64)
        requires
            old(self).wf(),
        ensures
            final(self).wf(),
            final(self)@ == old(self)@.with_btc(
                virtual_node@,
                if credit {
                    old(self)@.btc[virtual_node@].credit(amount)
                } else {
                    old(self)@.btc[virtual_node@].debit(amount)
                },
            ),
    {
        let current = self.btc_account(virtual_node);
        let next = if credit {
            Account { balance: current.balance.saturating_add(amount), reserved: current.reserved }
        } else {
            Account {
                balance: current.balance.saturating_sub(amount),
                reserved: current.reserved.saturating_sub(amount),
            }
        };
        self.set_btc_account(virtual_node, next);
    }

    /// Adds `amount` to the token balance of `virtual_node` under
    /// `contract_id`, or takes it away, keeping the balance between zero
    /// and the largest amount. A debit uses up the reservation that
    /// covered it.
    fn update_rgb_balance(
        &mut self,
        virtual_node: &PublicKey,
        contract_id: &ContractId,
        credit: bool,
        amount: u64,
    )
        requires
            old(self).wf(),
        ensures
            final(self).wf(),
            final(self)@ == old(self)@.with_rgb(
                virtual_node@,
                contract_id@,
                if credit {
                    old(self)@.rgb[(virtual_node@, contract_id@)].credit(amount)
                } else {
                    old(self)@.rgb[(virtual_node@, contract_id@)].debit(amount)
                },
            ),
    {
        let current = self.rgb_account(virtual_node, contract_id);
        let next = if credit {
            Account { balance: current.balance.saturating_add(amount), reserved: current.reserved }
        } else {
            Account {
                balance: current.balance.saturating_sub(amount),
                reserved: current.reserved.saturating_sub(amount),
            }
        };
        self.set_rgb_account(virtual_node, contract_id, next);
    }

    /// Adds `amount` of the currency to what `virtual_node` holds.
    pub fn deposit_btc(&mut self, virtual_node: &PublicKey, amount: u64)
        requires
            old(self).wf(),
        ensures
            final(self).wf(),
            final(self)@ == old(self)@.with_btc(
                virtual_node@,
                old(self)@.btc[virtual_node@].credit(amount),
            ),
    {
        self.update_btc_balance(virtual_node, true, amount);
    }

    /// Adds `amount` of the tokens of `contract_id` to what
    /// `virtual_node` holds.
    pub fn deposit_rgb(&mut self, virtual_node: &PublicKey, contract_id: &ContractId, amount: u64)
        requires
            old(self).wf(),
        ensures
            final(self).wf(),
            final(self)@ == old(self)@.with_rgb(
                virtual_node@,
                contract_id@,
                old(self)@.rgb[(virtual_node@, contract_id@)].credit(amount),
            ),
    {
        self.update_rgb_balance(virtual_node, contract_id, true, amount);
    }

    /// Applies a settlement: the currency leaves the sender and reaches
    /// the receiver, and so does the token amount where the settlement
    /// has a token leg. The whole of it happens within this one call.
    pub fn apply_settlement(&mut self, settlement: &VirtualSettlement) -> (res: Result<
        (),
        BalanceError,
    >)
        requires
            old(self).wf(),
        ensures
            res is Ok,
            final(self).wf(),
            final(self)@ == old(self)@.apply_settlement(settlement@),
    {
        self.update_btc_balance(&settlement.from_virtual_node, false, settlement.btc_settled);
        self.update_btc_balance(&settlement.to_virtual_node, true, settlement.btc_settled);
        match &settlement.rgb_settled {
            Some(t) => {
                self.update_rgb_balance(
                    &settlement.from_virtual_node,
                    &t.contract_id,
                    false,
                    t.amount,
                );
                self.update_rgb_balance(&settlement.to_virtual_node, &t.contract_id, true, t.amount);
            },
            None => {},
        }
        Ok(())
    }

    /// What `virtual_node` holds of the currency.
    pub fn get_btc_balance(&self, virtual_node: &PublicKey) -> (res: u64)
        requires
            self.wf(),
        ensures
            res == self@.btc[virtual_node@].balance,
    {
        self.btc_account(virtual_node).balance
    }

    /// What `virtual_node` holds of the tokens of `contract_id`.
    pub fn get_rgb_balance(&self, virtual_node: &PublicKey, contract_id: &ContractId) -> (res: u64)
        requires
            self.wf(),
        ensures
            res == self@.rgb[(virtual_node@, contract_id@)].balance,
    {
        self.rgb_account(virtual_node, contract_id).balance
    }

    /// Whether `virtual_node` can commit `btc_amount` and the token leg.
    /// Fails with `InsufficientBtc` where the currency it can commit is
    /// less than `btc_amount`, else with `InsufficientRgb` where the
    /// tokens it can commit are less than the token amount.
    pub fn check_sufficient_balance(
        &self,
        virtual_node: &PublicKey,
        btc_amount: u64,
        rgb_transfer: Option<&RgbTransfer>,
    ) -> (res: Result<(), BalanceError>)
        requires
            self.wf(),
        ensures
            res is Ok <==> self@.sufficiency(
                virtual_node@,
                btc_amount,
                transfer_ref_model(rgb_transfer),
            ) is Ok,
            res matches Err(e) ==> self@.sufficiency(
                virtual_node@,
                btc_amount,
                transfer_ref_model(rgb_transfer),
            ) == Err::<(), BalanceFailure>(e@),
    {
        let btc = self.btc_account(virtual_node);
        let btc_available = btc.balance - btc.reserved;
        if btc_available < btc_amount {
            return Err(
                BalanceError::InsufficientBtc { required: btc_amount, available: btc_available },
            );
        }
        match rgb_transfer {
            Some(t) => {
                let rgb = self.rgb_account(virtual_node, &t.contract_id);
                let rgb_available = rgb.balance - rgb.reserved;
                if rgb_available < t.amount {
                    return Err(
                        BalanceError::InsufficientRgb {
                            contract_id: t.contract_id.0.clone(),
                            required: t.amount,
                            available: rgb_available,
                        },
                    );
                }
            },
            None => {},
        }
        Ok(())
    }

    /// Checks that `virtual_node` can commit the amounts of a payment
    /// and, in the same step, reserves them. Where the check fails the
    /// ledger is unchanged.
    pub fn reserve(
        &mut self,
        virtual_node: &PublicKey,
        btc_amount: u64,
        rgb_transfer: Option<&RgbTransfer>,
    ) -> (res: Result<(), BalanceError>)
        requires
            old(self).wf(),
        ensures
            final(self).wf(),
            res is Ok <==> old(self)@.sufficiency(
                virtual_node@,
                btc_amount,
                transfer_ref_model(rgb_transfer),
            ) is Ok,
            res matches Err(e) ==> old(self)@.sufficiency(
                virtual_node@,
                btc_amount,
                transfer_ref_model(rgb_transfer),
            ) == Err::<(), BalanceFailure>(e@) && final(self)@ == old(self)@,
            res is Ok ==> final(self)@ == old(self)@.reserve(
                virtual_node@,
                btc_amount,
                transfer_ref_model(rgb_transfer),
            ),
    {
        match self.check_sufficient_balance(virtual_node, btc_amount, rgb_transfer) {
            Ok(()) => {},
            Err(e) => {
                return Err(e);
            },
        }
        let btc = self.btc_account(virtual_node);
        self.set_btc_account(
            virtual_node,
            Account { balance: btc.balance, reserved: btc.reserved + btc_amount },
        );
        match rgb_transfer {
            Some(t) => {
                let rgb = self.rgb_account(virtual_node, &t.contract_id);
                self.set_rgb_account(
                    virtual_node,
                    &t.contract_id,
                    Account { balance: rgb.balance, reserved: rgb.reserved + t.amount },
                );
            },
            None => {},
        }
        Ok(())
    }

    /// Gives up the reservation of a payment that will not settle.
    pub fn release(
        &mut self,
        virtual_node: &PublicKey,
        btc_amount: u64,
        rgb_transfer: Option<&RgbTransfer>,
    )
        requires
            old(self).wf(),
        ensures
            final(self).wf(),
            final(self)@ == old(self)@.release(
                virtual_node@,
                btc_amount,
                transfer_ref_model(rgb_transfer),
            ),
    {
        let btc = self.btc_account(virtual_node);
        self.set_btc_account(
            virtual_node,
            Account { balance: btc.balance, reserved: btc.reserved.saturating_sub(btc_amount) },
        );
        match rgb_transfer {
            Some(t) => {
                let rgb = self.rgb_account(virtual_node, &t.contract_id);
                self.set_rgb_account(
                    virtual_node,
                    &t.contract_id,
                    Account {
                        balance: rgb.balance,
                        reserved: rgb.reserved.saturating_sub(t.amount),
                    },
                );
            },
            None => {},
        }
    }
}

} // verus!
