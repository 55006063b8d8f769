//! Multi-tenant virtual nodes on one shared payment node: per-tenant key
//! derivation, ownership registry, HTLC settlement ledger and balance ledger.

pub mod auth;
pub mod blockchain_balance;
pub mod crypto;
pub mod database;
pub mod error;
pub mod hsm;
pub mod hsm_provider;
pub mod inbound_payment_handler;
pub mod lightning_router;
pub mod multi_user_rgb;
pub mod multi_user_routes;
pub mod rgb_db_adapter;
pub mod state_change;
pub mod table;
pub mod telegram_auth;
pub mod telegram_integration;
pub mod telegram_routes;
pub mod test_utils;
pub mod text;
pub mod types;
pub mod user_api;
pub mod user_manager;
pub mod user_manager_enhanced;
pub mod virtual_api;
pub mod virtual_balance;
pub mod virtual_channel;
pub mod virtual_context;
pub mod virtual_htlc;
pub mod virtual_node;
pub mod virtual_router;
pub mod virtual_transfer;
