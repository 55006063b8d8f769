//! Balances as the chain shows them: which addresses are asked about,
//! when a scan is tried again, and what the answers add up to.

use crate::error::AppError;
use crate::error::AppFailure;
use crate::text::join;
use std::str::FromStr;
use vstd::prelude::*;

verus! {

/// How long to wait after aborting a scan before scanning again, in
/// milliseconds.
pub const SCAN_RETRY_DELAY_MS: u64 = 100;

/// One unspent output of an address.
#[derive(Clone, Debug)]
pub struct UtxoInfo {
    pub txid: String,
    pub vout: u32,
    pub amount_sats: i64,
    pub confirmations: Option<u32>,
}

/// Whether `bitcoin` reads a text as an address.
pub uninterp spec fn bitcoin_address_parses(address: Seq<char>) -> bool;

/// Calls `bitcoin::Address::from_str` and reports whether it accepted
/// the text. Trusted: whether it does is a function of the text alone.
#[verifier::external_body]
pub(crate) fn address_parses(address: &str) -> (res: bool)
    ensures
        res == bitcoin_address_parses(address@),
{
    bitcoin::Address::from_str(address).is_ok()
}

/// How a scan of the unspent outputs ended.
#[derive(Debug)]
pub enum ScanOutcome {
    /// The scan gave its answer.
    Done,
    /// Another scan was in progress.
    Busy(String),
    /// The scan failed for another reason.
    Failed(String),
}

/// What to do after a scan.
#[derive(Debug)]
pub enum ScanDecision {
    /// Take the answer.
    Accept,
    /// Abort the scan in progress, wait, and scan once more.
    AbortAndRetry { delay_ms: u64 },
    /// Give up with this error.
    GiveUp(AppError),
}

/// What a decision says.
pub enum ScanDecisionModel {
    Accept,
    AbortAndRetry { delay_ms: u64 },
    GiveUp(AppFailure),
}

impl View for ScanDecision {
    type V = ScanDecisionModel;

    open spec fn view(&self) -> ScanDecisionModel {
        match self {
            ScanDecision::Accept => ScanDecisionModel::Accept,
            ScanDecision::AbortAndRetry { delay_ms } => ScanDecisionModel::AbortAndRetry {
                delay_ms: *delay_ms,
            },
            ScanDecision::GiveUp(e) => ScanDecisionModel::GiveUp(e@),
        }
    }
}

/// What to do after a scan: the first scan is tried again once where
/// another scan was in progress, and a second failure of any kind is
/// final.
pub open spec fn scan_decision(outcome: ScanOutcome, retried: bool) -> ScanDecisionModel {
    match outcome {
        ScanOutcome::Done => ScanDecisionModel::Accept,
        ScanOutcome::Busy(cause) => if retried {
            ScanDecisionModel::GiveUp(
                AppFailure::Generic("Failed to scan UTXO set after retry: "@ + cause@),
            )
        } else {
            ScanDecisionModel::AbortAndRetry { delay_ms: 100 }
        },
        ScanOutcome::Failed(cause) => if retried {
            ScanDecisionModel::GiveUp(
                AppFailure::Generic("Failed to scan UTXO set after retry: "@ + cause@),
            )
        } else {
            ScanDecisionModel::GiveUp(AppFailure::Generic("Failed to scan UTXO set: "@ + cause@))
        },
    }
}

/// The sum of the balances that could be read, kept within the range
/// of a balance.
pub open spec fn total_of(balances: Seq<Option<i64>>) -> int
    decreases balances.len(),
{
    if balances.len() == 0 {
        0
    } else {
        clamp_balance(
            total_of(balances.drop_last()) + match balances.last() {
                Some(b) => b as int,
                None => 0,
            },
        )
    }
}

/// `v`, or the nearest balance where `v` is none.
pub open spec fn clamp_balance(v: int) -> int {
    if v > i64::MAX {
        i64::MAX as int
    } else if v < i64::MIN {
        i64::MIN as int
    } else {
        v
    }
}

/// The service that reads balances from the chain.
pub struct BlockchainBalanceService {}

impl BlockchainBalanceService {
    /// A service.
    pub fn new() -> (res: BlockchainBalanceService) {
        BlockchainBalanceService {  }
    }

    /// Checks that `address` is one that the chain can be asked about.
    /// Fails with `InvalidRequest` where it is not an address.
    pub fn validate_address(&self, address: &str) -> (res: Result<(), AppError>)
        ensures
            res is Ok <==> bitcoin_address_parses(address@),
            res matches Err(e) ==> e@ == AppFailure::InvalidRequest(
                "Invalid Bitcoin address: "@ + address@,
            ),
    {
        if address_parses(address) {
            Ok(())
        } else {
            Err(AppError::InvalidRequest(join("Invalid Bitcoin address: ", address)))
        }
    }

    /// The descriptor that a scan for `address` asks with.
    pub fn scan_object(&self, address: &str) -> (res: String)
        ensures
            res@ == "addr("@ + address@ + ")"@,
    {
        join("addr(", address).concat(")")
    }

    /// What to do after a scan of the unspent outputs of an address:
    /// `retried` says whether this was the second scan.
    pub fn get_address_utxos(&self, outcome: ScanOutcome, retried: bool) -> (res: ScanDecision)
        ensures
            res@ == scan_decision(outcome, retried),
    {
        match outcome {
            ScanOutcome::Done => ScanDecision::Accept,
            ScanOutcome::Busy(cause) => {
                if retried {
                    ScanDecision::GiveUp(
                        AppError::Generic(
                            join("Failed to scan UTXO set after retry: ", cause.as_str()),
                        ),
                    )
                } else {
                    ScanDecision::AbortAndRetry { delay_ms: SCAN_RETRY_DELAY_MS }
                }
            },
            ScanOutcome::Failed(cause) => {
                if retried {
                    ScanDecision::GiveUp(
                        AppError::Generic(
                            join("Failed to scan UTXO set after retry: ", cause.as_str()),
                        ),
                    )
                } else {
                    ScanDecision::GiveUp(
                        AppError::Generic(join("Failed to scan UTXO set: ", cause.as_str())),
                    )
                }
            },
        }
    }

    /// The balance of several addresses: the sum of the balances that
    /// could be read. An address whose balance could not be read counts
    /// for nothing.
    pub fn get_multi_address_balance(&self, balances: &Vec<Option<i64>>) -> (res: i64)
        ensures
            res == total_of(balances@),
    {
        let mut total: i64 = 0;
        let mut i: usize = 0;
        assert(balances@.subrange(0, 0) =~= Seq::<Option<i64>>::empty());
        while i < balances.len()
            invariant
                i <= balances@.len(),
                total == total_of(balances@.subrange(0, i as int)),
            decreases balances@.len() - i,
        {
            assert(balances@.subrange(0, i as int + 1).drop_last() =~= balances@.subrange(
                0,
                i as int,
            ));
            assert(balances@.subrange(0, i as int + 1).last() == balances@[i as int]);
            let next: i128 = total as i128 + match balances[i] {
                Some(b) => b as i128,
                None => 0,
            };
            total = if next > 0x7fff_ffff_ffff_ffff {
                0x7fff_ffff_ffff_ffff
            } else if next < -0x8000_0000_0000_0000 {
                -0x8000_0000_0000_0000
            } else {
                next as i64
            };
            i += 1;
        }
        assert(balances@.subrange(0, i as int) =~= balances@);
        total
    }

    /// The balance of a tenant, given the balances of its addresses:
    /// zero for a tenant without addresses.
    pub fn get_user_balance_by_id(&self, balances: &Vec<Option<i64>>) -> (res: i64)
        ensures
            res == total_of(balances@),
            balances@.len() == 0 ==> res == 0,
    {
        self.get_multi_address_balance(balances)
    }
}

} // verus!
