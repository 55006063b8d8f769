//! The profile of a tenant: its role, its quotas and its settings, and
//! what a role is allowed to do.

use crate::auth::Claims;
use crate::auth::UserRole;
use crate::text::text_eq;
use axum::http::HeaderMap;
use axum::http::HeaderValue;
use serde_json::Value;
use vstd::prelude::*;

verus! {

/// The limits of a tenant.
#[derive(Clone, Copy, Debug, PartialEq, Eq, Structural)]
pub struct UserQuotas {
    pub max_channels: u32,
    pub max_assets: u32,
    pub max_transactions_per_day: u32,
    /// In satoshis.
    pub max_balance_btc: u64,
}

impl UserQuotas {
    /// The limits of an ordinary tenant.
    pub open spec fn standard() -> UserQuotas {
        UserQuotas {
            max_channels: 10,
            max_assets: 100,
            max_transactions_per_day: 1000,
            max_balance_btc: 1_000_000,
        }
    }

    /// The limits that come with a role: none for an administrator, the
    /// standard ones for a user, and zero of everything for a reader.
    pub open spec fn of_role(role: UserRole) -> UserQuotas {
        match role {
            UserRole::Admin => UserQuotas {
                max_channels: u32::MAX,
                max_assets: u32::MAX,
                max_transactions_per_day: u32::MAX,
                max_balance_btc: u64::MAX,
            },
            UserRole::User => UserQuotas::standard(),
            UserRole::ReadOnly => UserQuotas {
                max_channels: 0,
                max_assets: 0,
                max_transactions_per_day: 0,
                max_balance_btc: 0,
            },
        }
    }
}

impl Default for UserQuotas {
    fn default() -> (res: UserQuotas)
        ensures
            res == UserQuotas::standard(),
    {
        UserQuotas {
            max_channels: 10,
            max_assets: 100,
            max_transactions_per_day: 1000,
            max_balance_btc: 1_000_000,
        }
    }
}

/// How a tenant wants to be told of events.
#[derive(Clone, Debug)]
pub struct NotificationPreferences {
    pub email_notifications: bool,
    pub webhook_url: Option<String>,
}

/// The settings of a tenant.
#[derive(Clone, Debug)]
pub struct UserSettings {
    pub default_fee_rate: u64,
    pub auto_channel_accept: bool,
    pub notification_preferences: NotificationPreferences,
}

impl UserSettings {
    /// Whether these are the settings that a new tenant starts with.
    pub open spec fn is_standard(&self) -> bool {
        &&& self.default_fee_rate == 1
        &&& !self.auto_channel_accept
        &&& !self.notification_preferences.email_notifications
        &&& self.notification_preferences.webhook_url is None
    }
}

impl Default for UserSettings {
    fn default() -> (res: UserSettings)
        ensures
            res.is_standard(),
    {
        UserSettings {
            default_fee_rate: 1,
            auto_channel_accept: false,
            notification_preferences: NotificationPreferences {
                email_notifications: false,
                webhook_url: None,
            },
        }
    }
}

/// A tenant with all that is known of it.
#[derive(Clone, Debug)]
pub struct UserContext {
    pub user_id: String,
    pub role: UserRole,
    /// The balance of each asset, by the asset's name.
    pub balances: Vec<(String, i64)>,
    pub addresses: Vec<String>,
    pub quotas: UserQuotas,
    pub settings: UserSettings,
}

/// Whether a role may read.
pub open spec fn role_can_read(role: UserRole) -> bool {
    true
}

/// Whether a role may change anything: all but readers may.
pub open spec fn role_can_write(role: UserRole) -> bool {
    role != UserRole::ReadOnly
}

/// Whether the quotas allow one more `action`, given how many channels
/// the tenant has: a channel may be created below the limit of
/// channels, and every other action is allowed.
pub open spec fn quota_allows(quotas: UserQuotas, action: Seq<char>, channels: nat) -> bool {
    if action == "create_channel"@ {
        channels < quotas.max_channels
    } else {
        true
    }
}

/// The decisions about the profile of a tenant.
pub struct UserManager {}

impl UserManager {
    /// A manager.
    pub fn new() -> (res: UserManager) {
        UserManager {  }
    }

    /// The context of the bearer of a token, before anything is read
    /// from the store: no balances, no addresses, the standard quotas
    /// and settings.
    pub fn extract_user_context_from_claims(claims: &Claims) -> (res: UserContext)
        ensures
            res.user_id@ == claims.user_id@,
            res.role == claims.role,
            res.balances@.len() == 0,
            res.addresses@.len() == 0,
            res.quotas == UserQuotas::standard(),
            res.settings.is_standard(),
    {
        UserContext {
            user_id: claims.user_id.clone(),
            role: claims.role,
            balances: Vec::new(),
            addresses: Vec::new(),
            quotas: UserQuotas::default(),
            settings: UserSettings::default(),
        }
    }

    /// The tenant that a request names: the text of the field `user_id`
    /// of its body, else the text of its header `x-user-id`.
    pub fn extract_user_id(body: &Value, headers: &HeaderMap<HeaderValue>) -> (res: Option<String>)
        ensures
            crate::user_manager::text_of(res) == crate::user_manager::request_user_id(
                *body,
                *headers,
            ),
    {
        crate::user_manager::UserManager::extract_user_id(body, headers)
    }

    /// The quotas that a new tenant gets with its role.
    pub fn quotas_for_role(role: UserRole) -> (res: UserQuotas)
        ensures
            res == UserQuotas::of_role(role),
    {
        match role {
            UserRole::Admin => UserQuotas {
                max_channels: u32::MAX,
                max_assets: u32::MAX,
                max_transactions_per_day: u32::MAX,
                max_balance_btc: u64::MAX,
            },
            UserRole::User => UserQuotas::default(),
            UserRole::ReadOnly => UserQuotas {
                max_channels: 0,
                max_assets: 0,
                max_transactions_per_day: 0,
                max_balance_btc: 0,
            },
        }
    }

    /// Whether a tenant with `quotas` and `current_channels` channels
    /// may do `action`.
    pub fn check_user_quota(quotas: &UserQuotas, action: &str, current_channels: usize) -> (res:
        bool)
        ensures
            res == quota_allows(*quotas, action@, current_channels as nat),
    {
        if text_eq(action, "create_channel") {
            (current_channels as u64) < (quotas.max_channels as u64)
        } else {
            true
        }
    }

    /// Whether `role` may read.
    pub fn can_read(&self, role: &UserRole) -> (res: bool)
        ensures
            res == role_can_read(*role),
    {
        true
    }

    /// Whether `role` may change anything.
    pub fn can_write(&self, role: &UserRole) -> (res: bool)
        ensures
            res == role_can_write(*role),
    {
        match role {
            UserRole::Admin | UserRole::User => true,
            UserRole::ReadOnly => false,
        }
    }

    /// Whether `role` may administer: only administrators may.
    pub fn can_admin(&self, role: &UserRole) -> (res: bool)
        ensures
            res == (*role == UserRole::Admin),
    {
        match role {
            UserRole::Admin => true,
            _ => false,
        }
    }

    /// Whether `role` may open channels.
    pub fn can_create_channels(&self, role: &UserRole) -> (res: bool)
        ensures
            res == role_can_write(*role),
    {
        self.can_write(role)
    }

    /// Whether `role` may issue assets.
    pub fn can_issue_assets(&self, role: &UserRole) -> (res: bool)
        ensures
            res == role_can_write(*role),
    {
        self.can_write(role)
    }
}

} // verus!
