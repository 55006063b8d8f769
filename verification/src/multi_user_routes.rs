//! The routes of the multi-user API: which quota a path draws on, who
//! may list the users, and what a user is told of a balance.

use crate::auth::Claims;
use crate::auth::UserRole;
use crate::error::APIError;
use crate::error::ApiFailure;
use crate::multi_user_rgb::UserWalletStats;
use crate::text::text_eq;
use crate::virtual_api::VirtualAssetBalanceResponse;
use vstd::prelude::*;

verus! {

/// What is known of one user, in short.
#[derive(Clone, Debug)]
pub struct UserSummary {
    pub user_id: String,
    pub total_assets: u32,
    pub total_channels: u32,
    pub total_transactions: u32,
    pub wallet_size_bytes: u64,
}

/// The action whose quota a request to `path` draws on.
pub open spec fn quota_action_of(path: Seq<char>) -> Seq<char> {
    if path == "/openchannel"@ {
        "create_channel"@
    } else if path == "/issueassetnia"@ || path == "/issueassetuda"@ || path == "/issueassetcfa"@ {
        "create_asset"@
    } else if path == "/sendpayment"@ || path == "/sendasset"@ {
        "transaction"@
    } else {
        "general"@
    }
}

/// A count as 32 bits: the largest 32-bit number where the count is
/// beyond it.
pub open spec fn count_u32(n: nat) -> u32 {
    if n > u32::MAX {
        u32::MAX
    } else {
        n as u32
    }
}

/// A balance as an amount: zero where the balance is below zero.
pub open spec fn amount_of(balance: i64) -> u64 {
    if balance < 0 {
        0
    } else {
        balance as u64
    }
}

/// The action whose quota a request to `path` draws on: opening a
/// channel, issuing an asset, a transaction, or none in particular.
pub fn quota_check_middleware(path: &str) -> (res: &'static str)
    ensures
        res@ == quota_action_of(path@),
{
    if text_eq(path, "/openchannel") {
        "create_channel"
    } else if text_eq(path, "/issueassetnia") || text_eq(path, "/issueassetuda") || text_eq(
        path,
        "/issueassetcfa",
    ) {
        "create_asset"
    } else if text_eq(path, "/sendpayment") || text_eq(path, "/sendasset") {
        "transaction"
    } else {
        "general"
    }
}

/// Whether the bearer of `claims` may list the users: only an
/// administrator may, and everyone else is refused with `Forbidden`.
pub fn admin_list_users(claims: &Claims) -> (res: Result<(), APIError>)
    ensures
        claims.role == UserRole::Admin ==> res is Ok,
        claims.role != UserRole::Admin ==> (res matches Err(e) && e@ == ApiFailure::Forbidden(
            "Admin access required"@,
        )),
{
    match claims.role {
        UserRole::Admin => Ok(()),
        _ => Err(APIError::Forbidden(String::from_str("Admin access required"))),
    }
}

/// The summary of a user with the given wallet figures, channels and
/// transactions.
pub fn user_summary(stats: UserWalletStats, channels: usize, transactions: usize) -> (res:
    UserSummary)
    ensures
        res.user_id@ == stats.user_id@,
        res.total_assets == stats.total_assets,
        res.total_channels == count_u32(channels as nat),
        res.total_transactions == count_u32(transactions as nat),
        res.wallet_size_bytes == stats.wallet_size_bytes,
{
    let total_channels: u32 = if channels > 0xffff_ffff {
        0xffff_ffff
    } else {
        channels as u32
    };
    let total_transactions: u32 = if transactions > 0xffff_ffff {
        0xffff_ffff
    } else {
        transactions as u32
    };
    UserSummary {
        user_id: stats.user_id,
        total_assets: stats.total_assets,
        total_channels,
        total_transactions,
        wallet_size_bytes: stats.wallet_size_bytes,
    }
}

/// What a user is told of a balance: all of it is settled, expected and
/// spendable, and nothing is off chain.
pub fn multi_user_asset_balance(balance: i64) -> (res: VirtualAssetBalanceResponse)
    ensures
        res == (VirtualAssetBalanceResponse {
            settled: amount_of(balance),
            future: amount_of(balance),
            spendable: amount_of(balance),
            offchain_outbound: 0,
            offchain_inbound: 0,
        }),
{
    let amount: u64 = if balance < 0 {
        0
    } else {
        balance as u64
    };
    VirtualAssetBalanceResponse {
        settled: amount,
        future: amount,
        spendable: amount,
        offchain_outbound: 0,
        offchain_inbound: 0,
    }
}

} // verus!
