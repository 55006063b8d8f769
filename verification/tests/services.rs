use virtual_nodes::auth::bearer_token;
use virtual_nodes::auth::is_public_path;
use virtual_nodes::auth::AuthConfig;
use virtual_nodes::auth::AuthService;
use virtual_nodes::auth::Claims;
use virtual_nodes::auth::UserRole;
use virtual_nodes::blockchain_balance::BlockchainBalanceService;
use virtual_nodes::blockchain_balance::ScanDecision;
use virtual_nodes::blockchain_balance::ScanOutcome;
use virtual_nodes::error::APIError;
use virtual_nodes::error::AppError;
use virtual_nodes::inbound_payment_handler::InboundPaymentEvent;
use virtual_nodes::inbound_payment_handler::InboundPaymentHandler;
use virtual_nodes::inbound_payment_handler::MetadataUser;
use virtual_nodes::lightning_router::LightningPaymentResponse;
use virtual_nodes::lightning_router::LightningRouter;
use virtual_nodes::multi_user_rgb::MultiUserRgbManager;
use virtual_nodes::multi_user_rgb::UserRgbOperations;
use virtual_nodes::multi_user_routes::admin_list_users;
use virtual_nodes::multi_user_routes::multi_user_asset_balance;
use virtual_nodes::multi_user_routes::quota_check_middleware;
use virtual_nodes::multi_user_routes::user_summary;
use virtual_nodes::test_utils::add_test_address;
use virtual_nodes::test_utils::add_test_utxo;
use virtual_nodes::test_utils::test_address_user;
use virtual_nodes::test_utils::AddTestAddressRequest;
use virtual_nodes::test_utils::AddTestUtxoRequest;
use virtual_nodes::text::i64_to_text;
use virtual_nodes::text::strip_prefix;
use virtual_nodes::text::text_eq;
use virtual_nodes::text::u64_to_text;
use virtual_nodes::user_api::generate_user_rgb_invoice;
use virtual_nodes::user_api::get_user_asset_balance;
use virtual_nodes::user_api::handle_asset_balance;
use virtual_nodes::user_api::handle_rgb_invoice;
use virtual_nodes::user_api::handle_send_asset;
use virtual_nodes::user_api::parse_user_id;
use virtual_nodes::user_api::send_user_asset;
use virtual_nodes::user_api::UserAssetBalanceRequest;
use virtual_nodes::user_api::UserRgbInvoiceRequest;
use virtual_nodes::user_api::UserSendAssetRequest;
use virtual_nodes::user_manager::BalanceSource;
use virtual_nodes::user_manager::QueryDecision;
use virtual_nodes::user_manager_enhanced::UserManager;
use virtual_nodes::user_manager_enhanced::UserQuotas;
use virtual_nodes::user_manager_enhanced::UserSettings;
use virtual_nodes::virtual_api::virtual_assetbalance;
use virtual_nodes::virtual_api::virtual_rgbinvoice;
use virtual_nodes::virtual_api::virtual_sendpayment;
use virtual_nodes::virtual_api::VirtualAssetBalanceRequest;
use virtual_nodes::virtual_api::VirtualRgbInvoiceRequest;

#[test]
fn numbers_as_text() {
    assert_eq!(u64_to_text(0), "0");
    assert_eq!(u64_to_text(9), "9");
    assert_eq!(u64_to_text(10), "10");
    assert_eq!(u64_to_text(1_700_000_000), "1700000000");
    assert_eq!(u64_to_text(u64::MAX), u64::MAX.to_string());
    assert_eq!(i64_to_text(-1), "-1");
    assert_eq!(i64_to_text(i64::MIN), i64::MIN.to_string());
    assert_eq!(i64_to_text(i64::MAX), i64::MAX.to_string());
    assert_eq!(i64_to_text(0), "0");
}

#[test]
fn prefixes() {
    assert_eq!(strip_prefix("Bearer abc", "Bearer "), Some("abc"));
    assert_eq!(strip_prefix("Bearer ", "Bearer "), Some(""));
    assert_eq!(strip_prefix("bearer abc", "Bearer "), None);
    assert_eq!(strip_prefix("Bea", "Bearer "), None);
    assert_eq!(strip_prefix("é-ü", "é-"), Some("ü"));
    assert!(text_eq("a", "a"));
    assert!(!text_eq("a", "b"));
    assert_eq!(bearer_token("Bearer tok.en"), Some("tok.en"));
    assert_eq!(bearer_token("Basic abc"), None);
}

#[test]
fn public_paths_need_no_token() {
    assert!(is_public_path("/init"));
    assert!(is_public_path("/unlock"));
    assert!(is_public_path("/networkinfo"));
    assert!(!is_public_path("/sendpayment"));
    assert!(!is_public_path("/init/"));
    assert!(!is_public_path(""));
}

#[test]
fn tokens_expire_after_the_configured_hours() {
    let config = AuthConfig::with_secret(None);
    assert_eq!(config.jwt_secret, "default_secret");
    assert_eq!(config.token_expiry_hours, 24);
    let configured = AuthConfig::with_secret(Some("s3".to_string()));
    assert_eq!(configured.jwt_secret, "s3");
    let service = AuthService::new(configured);
    assert_eq!(service.jwt_secret(), "s3");
    assert_eq!(service.token_expiry(1_000_000), Some(1_086_400));
    assert_eq!(service.token_expiry(-86_401), None);
    assert_eq!(service.token_expiry(-86_400), Some(0));
    assert_eq!(service.token_expiry(i64::MAX - 86_399), None);
    let claims = service.token_claims("alice".to_string(), UserRole::Admin, 5).unwrap();
    assert_eq!(claims.user_id, "alice");
    assert_eq!(claims.role, UserRole::Admin);
    assert_eq!(claims.exp, 86_405);
    match service.token_claims("alice".to_string(), UserRole::User, i64::MAX) {
        Err(APIError::Unexpected(m)) => {
            assert_eq!(m, "Token generation failed: expiry out of range")
        }
        other => panic!("unexpected: {:?}", other),
    }
    let long = AuthService::new(AuthConfig { jwt_secret: String::new(), token_expiry_hours: u64::MAX });
    assert_eq!(long.token_expiry(0), None);
    assert_eq!(APIError::LockedNode.message(), "Node is locked");
    assert_eq!(APIError::Forbidden("no".to_string()).message(), "Forbidden: no");
    assert_eq!(AppError::Generic("plain".to_string()).message(), "plain");
    assert_eq!(AppError::Database("x".to_string()).message(), "Database error: x");
}

#[test]
fn roles_and_quotas() {
    let manager = UserManager::new();
    assert!(manager.can_read(&UserRole::ReadOnly));
    assert!(manager.can_read(&UserRole::Admin));
    assert!(manager.can_write(&UserRole::User));
    assert!(!manager.can_write(&UserRole::ReadOnly));
    assert!(manager.can_admin(&UserRole::Admin));
    assert!(!manager.can_admin(&UserRole::User));
    assert!(manager.can_create_channels(&UserRole::Admin));
    assert!(!manager.can_create_channels(&UserRole::ReadOnly));
    assert!(manager.can_issue_assets(&UserRole::User));
    assert!(!manager.can_issue_assets(&UserRole::ReadOnly));

    let standard = UserQuotas::default();
    assert_eq!(
        standard,
        UserQuotas {
            max_channels: 10,
            max_assets: 100,
            max_transactions_per_day: 1000,
            max_balance_btc: 1_000_000
        }
    );
    assert_eq!(UserManager::quotas_for_role(UserRole::User), standard);
    assert_eq!(UserManager::quotas_for_role(UserRole::Admin).max_channels, u32::MAX);
    assert_eq!(UserManager::quotas_for_role(UserRole::Admin).max_balance_btc, u64::MAX);
    assert_eq!(UserManager::quotas_for_role(UserRole::ReadOnly).max_assets, 0);
    assert!(UserManager::check_user_quota(&standard, "create_channel", 9));
    assert!(!UserManager::check_user_quota(&standard, "create_channel", 10));
    assert!(UserManager::check_user_quota(&standard, "create_asset", 1000));
    assert!(UserManager::check_user_quota(&standard, "transaction", 1000));
    assert!(UserManager::check_user_quota(&standard, "general", 1000));

    let settings = UserSettings::default();
    assert_eq!(settings.default_fee_rate, 1);
    assert!(!settings.auto_channel_accept);
    assert!(!settings.notification_preferences.email_notifications);
    assert!(settings.notification_preferences.webhook_url.is_none());

    let claims = Claims { user_id: "u".to_string(), role: UserRole::ReadOnly, exp: 1 };
    let context = UserManager::extract_user_context_from_claims(&claims);
    assert_eq!(context.user_id, "u");
    assert_eq!(context.role, UserRole::ReadOnly);
    assert!(context.balances.is_empty());
    assert!(context.addresses.is_empty());
    assert_eq!(context.quotas, standard);
}

#[test]
fn token_wallets() {
    let mut manager = MultiUserRgbManager::new("/data".to_string(), "proxy".to_string());
    assert_eq!(manager.get_max_allocations_for_role(&UserRole::Admin), 100);
    assert_eq!(manager.get_max_allocations_for_role(&UserRole::User), 50);
    assert_eq!(manager.get_max_allocations_for_role(&UserRole::ReadOnly), 0);
    let plan = manager.wallet_plan("alice", &UserRole::User);
    assert_eq!(plan.data_dir, "/data/users/alice");
    assert_eq!(plan.max_allocations_per_utxo, 50);
    assert_eq!(plan.pubkey, "user_alice_pubkey");
    assert!(!manager.has_user_wallet("alice"));
    manager.insert_user_wallet("alice");
    manager.insert_user_wallet("bob");
    manager.insert_user_wallet("alice");
    assert_eq!(manager.list_active_users(), vec!["alice", "bob"]);
    assert!(manager.has_user_wallet("bob"));
    manager.remove_user_wallet("alice");
    manager.remove_user_wallet("carol");
    assert_eq!(manager.list_active_users(), vec!["bob"]);
    let stats = manager.get_user_wallet_stats("bob");
    assert_eq!(stats.user_id, "bob");
    assert_eq!(
        (stats.total_assets, stats.total_utxos, stats.total_transfers, stats.wallet_size_bytes),
        (0, 0, 0, 0)
    );

    let reader = UserRgbOperations::new("r".to_string(), UserRole::ReadOnly);
    let user = UserRgbOperations::new("u".to_string(), UserRole::User);
    for operation in ["issue_asset", "send_asset", "receive_asset"] {
        assert!(user.can_perform_operation(operation));
        assert!(!reader.can_perform_operation(operation));
    }
    for operation in ["list_assets", "get_balance"] {
        assert!(user.can_perform_operation(operation));
        assert!(reader.can_perform_operation(operation));
    }
    assert!(!user.can_perform_operation("burn"));
    assert_eq!(user.get_asset_namespace(1700), "user_u_1700");
}

#[test]
fn inbound_payments_find_their_receiver() {
    let handler = InboundPaymentHandler::new();
    let mut event = InboundPaymentEvent {
        payment_hash: "abc".to_string(),
        amount_msat: 123_999,
        receiver_user_id: Some(7),
        metadata: Some("not json".to_string()),
        timestamp: 0,
    };
    let credit = handler.process_inbound_payment(&event).unwrap();
    assert_eq!((credit.user_id, credit.txid.as_str(), credit.amount_sats), (7, "inbound_abc", 123));

    event.receiver_user_id = None;
    match handler.process_inbound_payment(&event) {
        Err(AppError::Generic(m)) => assert_eq!(m, "Failed to parse metadata"),
        other => panic!("unexpected: {:?}", other),
    }
    event.metadata = Some("{\"type\":\"inbound_payment\"}".to_string());
    match handler.process_inbound_payment(&event) {
        Err(AppError::Generic(m)) => assert_eq!(m, "Invalid metadata format"),
        other => panic!("unexpected: {:?}", other),
    }
    event.metadata = Some("{\"user_id\":\"seven\"}".to_string());
    assert!(handler.process_inbound_payment(&event).is_err());
    event.metadata = Some("{\"user_id\":12,\"type\":\"inbound_payment\"}".to_string());
    let credit = handler.process_inbound_payment(&event).unwrap();
    assert_eq!(credit.user_id, 12);
    event.metadata = None;
    match handler.process_inbound_payment(&event) {
        Err(AppError::Generic(m)) => assert_eq!(m, "No user ID found in payment event"),
        other => panic!("unexpected: {:?}", other),
    }
    assert_eq!(InboundPaymentHandler::metadata_user("[1]"), MetadataUser::Missing);
    assert_eq!(InboundPaymentHandler::metadata_user("{"), MetadataUser::Unparsable);
    assert_eq!(InboundPaymentHandler::metadata_user("{\"user_id\":-4}"), MetadataUser::User(-4));
    let credit =
        InboundPaymentHandler::credit_for(&event, Some(MetadataUser::User(3))).unwrap();
    assert_eq!(credit.user_id, 3);
    event.amount_msat = u64::MAX;
    let credit = InboundPaymentHandler::credit_for(&event, Some(MetadataUser::User(3))).unwrap();
    assert_eq!(credit.amount_sats, 18_446_744_073_709_551);

    let invoice = handler.create_user_invoice("lnbc1".to_string(), 5, 1000, 1_700_000_000);
    assert_eq!(invoice.invoice, "lnbc1");
    assert_eq!(invoice.payment_hash, "hash_1700000000");
    assert_eq!((invoice.user_id, invoice.amount_msat, invoice.expiry), (5, 1000, 3600));
    let reported = handler.handle_payment_webhook("h".to_string(), 9, None, 44);
    assert_eq!(reported.payment_hash, "h");
    assert_eq!(reported.amount_msat, 9);
    assert_eq!(reported.receiver_user_id, None);
    assert_eq!(reported.timestamp, 44);
}

#[test]
fn answers_of_the_payment_engine() {
    let router = LightningRouter::new();
    let request = router.payment_request("lnbc1".to_string(), Some(5));
    assert_eq!(request.invoice, "lnbc1");
    assert_eq!(request.amt_msat, Some(5));
    let response = LightningPaymentResponse {
        payment_id: "id".to_string(),
        payment_hash: Some("hash".to_string()),
        status: "Succeeded".to_string(),
    };
    let sent = router.send_lightning_payment(Ok(response.clone())).unwrap();
    assert_eq!(sent.payment_id, "id");
    assert_eq!(sent.status, "Succeeded");
    match router.send_lightning_payment(Err("no route".to_string())) {
        Err(AppError::Generic(m)) => assert_eq!(m, "Lightning payment failed: no route"),
        other => panic!("unexpected: {:?}", other),
    }
    assert_eq!(router.invoice_parameters(None, Some(3600), None).min_confirmations, 1);
    assert_eq!(router.invoice_parameters(None, None, Some(6)).min_confirmations, 6);
    assert_eq!(router.create_lightning_invoice(Ok("inv".to_string())).unwrap(), "inv");
    match router.create_lightning_invoice(Err("locked".to_string())) {
        Err(AppError::Generic(m)) => assert_eq!(m, "Invoice creation failed: locked"),
        other => panic!("unexpected: {:?}", other),
    }
    assert_eq!(router.get_new_address(Ok("addr".to_string())).unwrap(), "addr");
    match router.get_new_address(Err("locked".to_string())) {
        Err(AppError::Generic(m)) => assert_eq!(m, "Address generation failed: locked"),
        other => panic!("unexpected: {:?}", other),
    }

    let parameters = virtual_rgbinvoice(VirtualRgbInvoiceRequest {
        user_id: "u".to_string(),
        asset_id: Some("a".to_string()),
        duration_seconds: Some(60),
        min_confirmations: None,
    });
    assert_eq!(parameters.asset_id, Some("a".to_string()));
    assert_eq!(parameters.duration_seconds, Some(60));
    assert_eq!(parameters.min_confirmations, 1);
    let answered = virtual_sendpayment(Ok(response)).unwrap();
    assert_eq!(answered.payment_id, "id");
    assert_eq!(answered.payment_hash, Some("hash".to_string()));
    match virtual_sendpayment(Err(AppError::Generic("Lightning payment failed: x".to_string()))) {
        Err(APIError::FailedPayment(m)) => assert_eq!(m, "Lightning payment failed: x"),
        other => panic!("unexpected: {:?}", other),
    }
    let asset = virtual_assetbalance(VirtualAssetBalanceRequest {
        user_id: "u".to_string(),
        asset_id: "rgb1".to_string(),
    });
    assert_eq!(asset, "rgb1");
}

#[test]
fn balances_from_the_chain() {
    let service = BlockchainBalanceService::new();
    assert!(service.validate_address("bc1qar0srrr7xfkvy5l643lydnw9re59gtzzwf5mdq").is_ok());
    assert!(service.validate_address("1A1zP1eP5QGefi2DMPTfTL5SLmv7DivfNa").is_ok());
    match service.validate_address("not-an-address") {
        Err(AppError::InvalidRequest(m)) => assert_eq!(m, "Invalid Bitcoin address: not-an-address"),
        other => panic!("unexpected: {:?}", other),
    }
    assert_eq!(service.scan_object("bc1q"), "addr(bc1q)");
    assert!(matches!(service.get_address_utxos(ScanOutcome::Done, false), ScanDecision::Accept));
    assert!(matches!(
        service.get_address_utxos(ScanOutcome::Busy("Scan already in progress".to_string()), false),
        ScanDecision::AbortAndRetry { delay_ms: 100 }
    ));
    match service.get_address_utxos(ScanOutcome::Busy("busy".to_string()), true) {
        ScanDecision::GiveUp(AppError::Generic(m)) => {
            assert_eq!(m, "Failed to scan UTXO set after retry: busy")
        }
        other => panic!("unexpected: {:?}", other),
    }
    match service.get_address_utxos(ScanOutcome::Failed("down".to_string()), false) {
        ScanDecision::GiveUp(AppError::Generic(m)) => assert_eq!(m, "Failed to scan UTXO set: down"),
        other => panic!("unexpected: {:?}", other),
    }
    assert_eq!(service.get_multi_address_balance(&vec![Some(5), None, Some(-2)]), 3);
    assert_eq!(service.get_multi_address_balance(&vec![]), 0);
    assert_eq!(service.get_multi_address_balance(&vec![Some(i64::MAX), Some(1)]), i64::MAX);
    assert_eq!(service.get_user_balance_by_id(&vec![]), 0);
    assert_eq!(service.get_user_balance_by_id(&vec![Some(4), Some(6)]), 10);

    let manager = virtual_nodes::user_manager::UserManager::new();
    assert_eq!(manager.get_user_balance(None), BalanceSource::Blockchain);
    assert_eq!(manager.get_user_balance(Some("BTC")), BalanceSource::Blockchain);
    assert_eq!(manager.get_user_balance(Some("rgb1")), BalanceSource::Database);
    assert_eq!(manager.get_btc_balance_from_blockchain(&vec![]), Some(0));
    assert_eq!(manager.get_btc_balance_from_blockchain(&vec![None, None]), None);
    assert_eq!(manager.get_btc_balance_from_blockchain(&vec![None, Some(7), Some(1)]), Some(8));
    assert_eq!(manager.query_address_balance(200, false), QueryDecision::Read);
    assert_eq!(
        manager.query_address_balance(429, false),
        QueryDecision::RetryAfter { delay_secs: 2 }
    );
    assert_eq!(manager.query_address_balance(429, true), QueryDecision::Fail { status: 429 });
    assert_eq!(manager.query_address_balance(500, false), QueryDecision::Fail { status: 500 });
    assert_eq!(
        virtual_nodes::user_manager::UserManager::address_balance(Some(100), Some(30)),
        70
    );
    assert_eq!(virtual_nodes::user_manager::UserManager::address_balance(None, Some(30)), -30);
    assert_eq!(
        virtual_nodes::user_manager::UserManager::address_balance(Some(u64::MAX), None),
        i64::MAX
    );
    let (mnemonic, path) = manager.create_user_wallet("alice");
    assert_eq!(mnemonic, "encrypted_mnemonic_for_alice");
    assert_eq!(path, "m/84'/1'/0'");
    let context = manager.get_user_context("alice", vec![("BTC".to_string(), 5)], vec![]);
    assert_eq!(context.user_id, "alice");
    assert_eq!(context.balances, vec![("BTC".to_string(), 5)]);
}

#[test]
fn the_simple_user_api() {
    assert_eq!(parse_user_id("42"), 42);
    assert_eq!(parse_user_id("-42"), -42);
    assert_eq!(parse_user_id("forty-two"), 0);
    assert_eq!(parse_user_id(""), 0);
    assert_eq!(get_user_asset_balance(1234, "USDT"), 234_000);
    assert_eq!(get_user_asset_balance(1234, "BTC"), 3_400_000);
    assert_eq!(get_user_asset_balance(1234, "ETH"), 0);
    assert_eq!(get_user_asset_balance(-1234, "USDT"), ((-1234i64 % 1000) * 1000) as u64);
    assert_eq!(get_user_asset_balance(-2000, "USDT"), 0);
    assert_eq!(get_user_asset_balance(i64::MIN, "BTC"), ((i64::MIN % 100) * 100000) as u64);
    assert_eq!(generate_user_rgb_invoice(7, "USDT", 99), "rgb:USDT:any:user_7:blinding_99");
    assert_eq!(send_user_asset(7, "USDT", 500, 99), "txid_7_USDT_500_99");
    let balance = handle_asset_balance(&UserAssetBalanceRequest {
        user_id: "1234".to_string(),
        asset_id: "USDT".to_string(),
    });
    assert!(balance.success);
    assert_eq!(balance.data, Some(234_000));
    assert_eq!(balance.error, None);
    let invoice = handle_rgb_invoice(
        &UserRgbInvoiceRequest { user_id: "x".to_string(), asset_id: "A".to_string() },
        5,
    );
    assert_eq!(invoice.data, Some("rgb:A:any:user_0:blinding_5".to_string()));
    let sent = handle_send_asset(
        &UserSendAssetRequest {
            user_id: "3".to_string(),
            invoice: "i".to_string(),
            asset_id: "A".to_string(),
            amount: 2,
        },
        5,
    );
    assert_eq!(sent.data, Some("txid_3_A_2_5".to_string()));
}

#[test]
fn seeding_answers() {
    let added = add_test_utxo(&AddTestUtxoRequest { user_id: 3, amount_sats: 5000 }, "u-1");
    assert!(added.success);
    assert_eq!(added.txid, "test_u-1");
    assert_eq!(added.message, "Added 5000 sats to user 3");
    let request = AddTestAddressRequest { user_id: "12".to_string(), address: "bc1q".to_string() };
    assert_eq!(test_address_user(&request).unwrap(), 12);
    let answer = add_test_address(&request);
    assert!(answer.success);
    assert_eq!(answer.message, "Added address bc1q for user 12");
    let bad = AddTestAddressRequest { user_id: "x".to_string(), address: "a".to_string() };
    match test_address_user(&bad) {
        Err(APIError::Unexpected(m)) => assert_eq!(m, "Invalid user_id format"),
        other => panic!("unexpected: {:?}", other),
    }
}

#[test]
fn multi_user_routes() {
    assert_eq!(quota_check_middleware("/openchannel"), "create_channel");
    assert_eq!(quota_check_middleware("/issueassetnia"), "create_asset");
    assert_eq!(quota_check_middleware("/issueassetuda"), "create_asset");
    assert_eq!(quota_check_middleware("/issueassetcfa"), "create_asset");
    assert_eq!(quota_check_middleware("/sendpayment"), "transaction");
    assert_eq!(quota_check_middleware("/sendasset"), "transaction");
    assert_eq!(quota_check_middleware("/nodeinfo"), "general");
    let admin = Claims { user_id: "a".to_string(), role: UserRole::Admin, exp: 0 };
    let user = Claims { user_id: "u".to_string(), role: UserRole::User, exp: 0 };
    assert!(admin_list_users(&admin).is_ok());
    match admin_list_users(&user) {
        Err(APIError::Forbidden(m)) => assert_eq!(m, "Admin access required"),
        other => panic!("unexpected: {:?}", other),
    }
    let manager = MultiUserRgbManager::new("/d".to_string(), "p".to_string());
    let summary = user_summary(manager.get_user_wallet_stats("u"), 3, 4);
    assert_eq!(summary.user_id, "u");
    assert_eq!((summary.total_channels, summary.total_transactions), (3, 4));
    let balance = multi_user_asset_balance(500);
    assert_eq!((balance.settled, balance.future, balance.spendable), (500, 500, 500));
    assert_eq!((balance.offchain_outbound, balance.offchain_inbound), (0, 0));
    assert_eq!(multi_user_asset_balance(-5).settled, 0);
}

#[test]
fn statements_are_rewritten_for_postgres() {
    let adapter = virtual_nodes::rgb_db_adapter::RgbDatabaseAdapter::new();
    assert_eq!(virtual_nodes::rgb_db_adapter::REWRITE_RULES, 19);
    assert_eq!(
        adapter.convert_sqlite_to_postgres(
            "CREATE TABLE \"txo\" (idx INTEGER PRIMARY KEY AUTOINCREMENT, flag tinyint, j json_text)"
        ),
        "CREATE TABLE \"rgb_txo\" (idx SERIAL PRIMARY KEY , flag SMALLINT, j JSONB)"
    );
    assert_eq!(
        adapter.convert_sqlite_to_postgres("SELECT * FROM \"asset_transfer\" JOIN \"transfer\""),
        "SELECT * FROM \"rgb_asset_transfer\" JOIN \"rgb_transfer\""
    );
    assert_eq!(adapter.convert_sqlite_to_postgres("SELECT 1"), "SELECT 1");
    assert_eq!(
        adapter.convert_sqlite_to_postgres("\"seaql_migrations\" \"token_media\""),
        "\"rgb_seaql_migrations\" \"rgb_token_media\""
    );
}

#[test]
fn balance_rows_are_listed_by_asset_name() {
    let rows = vec![(None, 5), (Some("rgb1".to_string()), 7)];
    assert_eq!(
        virtual_nodes::database::get_user_balances(rows),
        vec![("BTC".to_string(), 5), ("rgb1".to_string(), 7)]
    );
    assert!(virtual_nodes::database::get_user_balances(vec![]).is_empty());
}

#[test]
fn one_change_of_state_at_a_time() {
    let mut flag = virtual_nodes::state_change::StateChange::new();
    assert!(flag.wait_state_change());
    assert!(!flag.wait_state_change());
    flag.reset_changing_state();
    assert!(flag.wait_state_change());
}
