//! The token wallets of the tenants: which tenants have a wallet in
//! memory, where a wallet keeps its data, and what a role may do with
//! one.

use crate::auth::UserRole;
use crate::text::i64_to_text;
use crate::text::join;
use crate::text::text_eq;
use crate::text::decimal_of;
use crate::virtual_channel::texts;
use vstd::prelude::*;

verus! {

/// Figures about the wallet of one tenant.
#[derive(Clone, Debug)]
pub struct UserWalletStats {
    pub user_id: String,
    pub total_assets: u32,
    pub total_utxos: u32,
    pub total_transfers: u32,
    pub wallet_size_bytes: u64,
}

/// How the wallet of a tenant is to be set up.
#[derive(Clone, Debug)]
pub struct WalletPlan {
    pub data_dir: String,
    pub max_allocations_per_utxo: u32,
    pub pubkey: String,
}

/// How many allocations a role may put on one output.
pub open spec fn max_allocations(role: UserRole) -> u32 {
    match role {
        UserRole::Admin => 100,
        UserRole::User => 50,
        UserRole::ReadOnly => 0,
    }
}

/// Where the wallet of `user_id` keeps its data under `base`.
pub open spec fn wallet_dir(base: Seq<char>, user_id: Seq<char>) -> Seq<char> {
    base + "/users/"@ + user_id
}

/// `list` without its entries equal to `user_id`.
pub open spec fn without(list: Seq<Seq<char>>, user_id: Seq<char>) -> Seq<Seq<char>>
    decreases list.len(),
{
    if list.len() == 0 {
        list
    } else if list.last() == user_id {
        without(list.drop_last(), user_id)
    } else {
        without(list.drop_last(), user_id).push(list.last())
    }
}

/// The manager of the tenants' token wallets.
pub struct MultiUserRgbManager {
    active_users: Vec<String>,
    base_data_dir: String,
    proxy_endpoint: String,
}

impl MultiUserRgbManager {
    /// The tenants that have a wallet in memory, oldest first.
    pub closed spec fn active(&self) -> Seq<Seq<char>> {
        texts(self.active_users@)
    }

    /// The directory under which all wallets keep their data.
    pub closed spec fn base(&self) -> Seq<char> {
        self.base_data_dir@
    }

    /// A manager without wallets.
    pub fn new(base_data_dir: String, proxy_endpoint: String) -> (res: MultiUserRgbManager)
        ensures
            res.active() == Seq::<Seq<char>>::empty(),
            res.base() == base_data_dir@,
    {
        let res = MultiUserRgbManager { active_users: Vec::new(), base_data_dir, proxy_endpoint };
        assert(res.active() =~= Seq::<Seq<char>>::empty());
        res
    }

    /// Whether `user_id` has a wallet in memory.
    pub fn has_user_wallet(&self, user_id: &str) -> (res: bool)
        ensures
            res == self.active().contains(user_id@),
    {
        let mut i: usize = 0;
        while i < self.active_users.len()
            invariant
                i <= self.active_users@.len(),
                forall|j: int| 0 <= j < i ==> self.active()[j] != user_id@,
            decreases self.active_users@.len() - i,
        {
            if text_eq(self.active_users[i].as_str(), user_id) {
                assert(self.active()[i as int] == user_id@);
                return true;
            }
            i += 1;
        }
        false
    }

    /// How the wallet of `user_id` is to be set up for `role`.
    pub fn wallet_plan(&self, user_id: &str, role: &UserRole) -> (res: WalletPlan)
        ensures
            res.data_dir@ == wallet_dir(self.base(), user_id@),
            res.max_allocations_per_utxo == max_allocations(*role),
            res.pubkey@ == "user_"@ + user_id@ + "_pubkey"@,
    {
        let data_dir = join(self.base_data_dir.as_str(), "/users/").concat(user_id);
        let pubkey = join("user_", user_id).concat("_pubkey");
        WalletPlan {
            data_dir,
            max_allocations_per_utxo: self.get_max_allocations_for_role(role),
            pubkey,
        }
    }

    /// Notes that the wallet of `user_id` is in memory now.
    pub fn insert_user_wallet(&mut self, user_id: &str)
        ensures
            final(self).base() == old(self).base(),
            final(self).active() == if old(self).active().contains(user_id@) {
                old(self).active()
            } else {
                old(self).active().push(user_id@)
            },
    {
        if !self.has_user_wallet(user_id) {
            let ghost before = self.active();
            self.active_users.push(String::from_str(user_id));
            assert(self.active() =~= before.push(user_id@));
        }
    }

    /// Forgets the wallet of `user_id`.
    pub fn remove_user_wallet(&mut self, user_id: &str)
        ensures
            final(self).base() == old(self).base(),
            final(self).active() == without(old(self).active(), user_id@),
    {
        let mut kept: Vec<String> = Vec::new();
        let mut i: usize = 0;
        assert(self.active().subrange(0, 0) =~= Seq::<Seq<char>>::empty());
        assert(texts(kept@) =~= Seq::<Seq<char>>::empty());
        while i < self.active_users.len()
            invariant
                i <= self.active_users@.len(),
                texts(kept@) == without(self.active().subrange(0, i as int), user_id@),
            decreases self.active_users@.len() - i,
        {
            let ghost prefix = self.active().subrange(0, i as int);
            let ghost next = self.active().subrange(0, i as int + 1);
            let ghost listed = texts(kept@);
            assert(next.drop_last() =~= prefix);
            assert(next.last() == self.active()[i as int]);
            if !text_eq(self.active_users[i].as_str(), user_id) {
                kept.push(self.active_users[i].clone());
                assert(texts(kept@) =~= listed.push(self.active()[i as int]));
            }
            i += 1;
        }
        assert(self.active().subrange(0, i as int) =~= self.active());
        self.active_users = kept;
    }

    /// How many allocations `role` may put on one output.
    pub fn get_max_allocations_for_role(&self, role: &UserRole) -> (res: u32)
        ensures
            res == max_allocations(*role),
    {
        match role {
            UserRole::Admin => 100,
            UserRole::User => 50,
            UserRole::ReadOnly => 0,
        }
    }

    /// The tenants that have a wallet in memory, oldest first.
    pub fn list_active_users(&self) -> (res: Vec<String>)
        ensures
            texts(res@) == self.active(),
    {
        let mut out: Vec<String> = Vec::new();
        let mut i: usize = 0;
        assert(texts(out@) =~= self.active().subrange(0, 0));
        while i < self.active_users.len()
            invariant
                i <= self.active_users@.len(),
                texts(out@) == self.active().subrange(0, i as int),
            decreases self.active_users@.len() - i,
        {
            let ghost listed = texts(out@);
            out.push(self.active_users[i].clone());
            assert(texts(out@) =~= listed.push(self.active()[i as int]));
            assert(listed.push(self.active()[i as int]) =~= self.active().subrange(
                0,
                i as int + 1,
            ));
            i += 1;
        }
        assert(self.active().subrange(0, i as int) =~= self.active());
        out
    }

    /// The figures of the wallet of `user_id`. Nothing is counted yet:
    /// all figures are zero.
    pub fn get_user_wallet_stats(&self, user_id: &str) -> (res: UserWalletStats)
        ensures
            res.user_id@ == user_id@,
            res.total_assets == 0,
            res.total_utxos == 0,
            res.total_transfers == 0,
            res.wallet_size_bytes == 0,
    {
        UserWalletStats {
            user_id: String::from_str(user_id),
            total_assets: 0,
            total_utxos: 0,
            total_transfers: 0,
            wallet_size_bytes: 0,
        }
    }
}

/// Whether `role` may do `operation` on a token wallet: issuing, sending
/// and receiving need the right to change things, listing assets and
/// reading a balance are open to every role, and nothing else is
/// allowed.
pub open spec fn operation_allowed(role: UserRole, operation: Seq<char>) -> bool {
    if operation == "issue_asset"@ || operation == "send_asset"@ || operation
        == "receive_asset"@ {
        role != UserRole::ReadOnly
    } else {
        operation == "list_assets"@ || operation == "get_balance"@
    }
}

/// What one tenant does with its token wallet.
pub struct UserRgbOperations {
    user_id: String,
    role: UserRole,
}

impl UserRgbOperations {
    /// The tenant.
    pub closed spec fn user_id(&self) -> Seq<char> {
        self.user_id@
    }

    /// The tenant's role.
    pub closed spec fn role(&self) -> UserRole {
        self.role
    }

    /// The operations of `user_id` in `role`.
    pub fn new(user_id: String, role: UserRole) -> (res: UserRgbOperations)
        ensures
            res.user_id() == user_id@,
            res.role() == role,
    {
        UserRgbOperations { user_id, role }
    }

    /// Whether this tenant may do `operation`.
    pub fn can_perform_operation(&self, operation: &str) -> (res: bool)
        ensures
            res == operation_allowed(self.role(), operation@),
    {
        let writes = match self.role {
            UserRole::Admin | UserRole::User => true,
            UserRole::ReadOnly => false,
        };
        if text_eq(operation, "issue_asset") || text_eq(operation, "send_asset") || text_eq(
            operation,
            "receive_asset",
        ) {
            writes
        } else {
            text_eq(operation, "list_assets") || text_eq(operation, "get_balance")
        }
    }

    /// The namespace for the assets that this tenant issues at `now`:
    /// `user_`, the tenant, `_` and the time in seconds.
    pub fn get_asset_namespace(&self, now: i64) -> (res: String)
        ensures
            res@ == "user_"@ + self.user_id() + "_"@ + decimal_of(now as int),
    {
        join("user_", self.user_id.as_str()).concat("_").concat(i64_to_text(now).as_str())
    }
}

} // verus!
