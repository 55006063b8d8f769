use lightning::sign::KeysManager;
use std::sync::Arc;
use virtual_nodes::types::ContractId;
use virtual_nodes::types::PaymentHash;
use virtual_nodes::types::PaymentPreimage;
use virtual_nodes::types::PublicKey;
use virtual_nodes::virtual_balance::Account;
use virtual_nodes::virtual_balance::BalanceError;
use virtual_nodes::virtual_balance::VirtualBalanceManager;
use virtual_nodes::virtual_channel::VirtualChannelManager;
use virtual_nodes::virtual_htlc::RgbTransfer;
use virtual_nodes::virtual_htlc::VirtualHtlcError;
use virtual_nodes::virtual_htlc::VirtualHtlcManager;
use virtual_nodes::virtual_htlc::VirtualHtlcStatus;
use virtual_nodes::virtual_router::PaymentSignal;
use virtual_nodes::virtual_router::RgbInvoiceRequest;
use virtual_nodes::virtual_router::VirtualRouter;
use virtual_nodes::virtual_router::VirtualRouterError;

fn node(fill: u8) -> PublicKey {
    let mut bytes = [fill; 33];
    bytes[0] = 2;
    PublicKey(bytes)
}

fn hash_of(preimage: &[u8; 32]) -> PaymentHash {
    let digest = <bitcoin::hashes::sha256::Hash as bitcoin::hashes::Hash>::hash(preimage);
    PaymentHash(<bitcoin::hashes::sha256::Hash as bitcoin::hashes::Hash>::to_byte_array(digest))
}

fn contract_x() -> ContractId {
    ContractId::new("contract-x")
}

fn router() -> VirtualRouter {
    let keys = Arc::new(KeysManager::new(&[11u8; 32], 1, 1));
    VirtualRouter::new(
        VirtualHtlcManager::new(VirtualChannelManager::new()),
        VirtualBalanceManager::new(),
        keys,
    )
}

fn funded_router() -> VirtualRouter {
    let mut router = router();
    router.deposit_btc(&node(0xaa), 500_000);
    router.deposit_rgb(&node(0xaa), &contract_x(), 80);
    router
}

#[test]
fn settlement_moves_both_legs_in_one_step() {
    let mut router = funded_router();
    let preimage = [7u8; 32];
    let hash = hash_of(&preimage);
    let transfer = Some(RgbTransfer { contract_id: contract_x(), amount: 50 });
    router.send_virtual_payment(node(0xaa), node(0xbb), 100_000, transfer, hash).unwrap();

    assert_eq!(router.balance_manager().get_btc_balance(&node(0xaa)), 500_000);
    assert_eq!(
        router.balance_manager().btc_account(&node(0xaa)),
        Account { balance: 500_000, reserved: 100_000 }
    );
    assert_eq!(
        router.balance_manager().rgb_account(&node(0xaa), &contract_x()),
        Account { balance: 80, reserved: 50 }
    );

    let settlement = router.settle_virtual_payment(hash, PaymentPreimage(preimage)).unwrap();
    assert_eq!(settlement.btc_settled, 100_000);
    assert_eq!(settlement.rgb_amount(), Some(50));
    assert_eq!(settlement.rgb_contract_id(), Some(contract_x()));
    assert_eq!(settlement.payment_hash, hash);
    assert_eq!(settlement.preimage, PaymentPreimage(preimage));
    assert_eq!(settlement.from_virtual_node, node(0xaa));
    assert_eq!(settlement.to_virtual_node, node(0xbb));

    let ledger = router.balance_manager();
    assert_eq!(ledger.get_btc_balance(&node(0xaa)), 400_000);
    assert_eq!(ledger.get_btc_balance(&node(0xbb)), 100_000);
    assert_eq!(ledger.get_rgb_balance(&node(0xaa), &contract_x()), 30);
    assert_eq!(ledger.get_rgb_balance(&node(0xbb), &contract_x()), 50);
    assert_eq!(ledger.btc_account(&node(0xaa)), Account { balance: 400_000, reserved: 0 });
    assert_eq!(
        ledger.rgb_account(&node(0xaa), &contract_x()),
        Account { balance: 30, reserved: 0 }
    );
    assert_eq!(ledger.get_btc_balance(&node(0xcc)), 0);
    assert_eq!(ledger.get_rgb_balance(&node(0xbb), &ContractId::new("contract-y")), 0);
}

#[test]
fn wrong_preimage_is_rejected_and_htlc_stays_pending() {
    let mut router = funded_router();
    let preimage = [7u8; 32];
    let hash = hash_of(&preimage);
    router.send_virtual_payment(node(0xaa), node(0xbb), 100_000, None, hash).unwrap();

    let wrong = router.settle_virtual_payment(hash, PaymentPreimage([8u8; 32]));
    assert!(matches!(
        wrong,
        Err(VirtualRouterError::Settlement(VirtualHtlcError::InvalidPreimage))
    ));
    let pending = router.htlc_manager().get_pending_htlcs(&node(0xaa));
    assert_eq!(pending.len(), 1);
    assert_eq!(pending[0].status, VirtualHtlcStatus::Pending);
    assert_eq!(router.balance_manager().get_btc_balance(&node(0xaa)), 500_000);
    assert_eq!(router.balance_manager().get_btc_balance(&node(0xbb)), 0);

    let handed_back = router.settle_virtual_payment(hash, PaymentPreimage(hash.0));
    assert!(matches!(
        handed_back,
        Err(VirtualRouterError::Settlement(VirtualHtlcError::InvalidPreimage))
    ));

    let right = router.settle_virtual_payment(hash, PaymentPreimage(preimage));
    assert!(right.is_ok());
    assert_eq!(router.balance_manager().get_btc_balance(&node(0xbb)), 100_000);
    assert!(router.htlc_manager().get_pending_htlcs(&node(0xaa)).is_empty());
}

#[test]
fn settlement_happens_exactly_once() {
    let mut router = funded_router();
    let preimage = [7u8; 32];
    let hash = hash_of(&preimage);
    router.send_virtual_payment(node(0xaa), node(0xbb), 100_000, None, hash).unwrap();

    let first = router.settle_virtual_payment(hash, PaymentPreimage(preimage));
    let second = router.settle_virtual_payment(hash, PaymentPreimage(preimage));
    assert!(first.is_ok());
    assert!(matches!(
        second,
        Err(VirtualRouterError::Settlement(VirtualHtlcError::HtlcNotFound))
    ));
    assert_eq!(router.balance_manager().get_btc_balance(&node(0xaa)), 400_000);
    assert_eq!(router.balance_manager().get_btc_balance(&node(0xbb)), 100_000);
    assert_eq!(
        router.htlc_manager().get(&hash).unwrap().status,
        VirtualHtlcStatus::Settled
    );
}

#[test]
fn settling_an_unknown_payment_is_not_found() {
    let mut router = funded_router();
    let preimage = [7u8; 32];
    let result = router.settle_virtual_payment(hash_of(&preimage), PaymentPreimage(preimage));
    assert!(matches!(
        result,
        Err(VirtualRouterError::Settlement(VirtualHtlcError::HtlcNotFound))
    ));
}

#[test]
fn insufficiency_blocks_creation() {
    let mut router = funded_router();
    let hash = hash_of(&[7u8; 32]);
    let result = router.send_virtual_payment(node(0xaa), node(0xbb), 500_001, None, hash);
    match result {
        Err(VirtualRouterError::InsufficientBalance(BalanceError::InsufficientBtc {
            required,
            available,
        })) => {
            assert_eq!(required, 500_001);
            assert_eq!(available, 500_000);
        }
        other => panic!("unexpected: {:?}", other),
    }
    assert!(router.htlc_manager().get_pending_htlcs(&node(0xaa)).is_empty());
    assert!(router.htlc_manager().get(&hash).is_none());
    assert!(!router.htlc_manager().contains(&hash));
    let registry = router.htlc_manager().channel_manager();
    assert!(registry.get_payments_for_virtual_node(&node(0xaa).to_hex()).is_empty());
    assert!(registry.get_payments_for_virtual_node(&node(0xbb).to_hex()).is_empty());
    assert_eq!(
        router.balance_manager().btc_account(&node(0xaa)),
        Account { balance: 500_000, reserved: 0 }
    );
}

#[test]
fn insufficient_tokens_block_creation() {
    let mut router = funded_router();
    let hash = hash_of(&[7u8; 32]);
    let transfer = Some(RgbTransfer { contract_id: contract_x(), amount: 81 });
    let result = router.send_virtual_payment(node(0xaa), node(0xbb), 1, transfer, hash);
    match result {
        Err(VirtualRouterError::InsufficientBalance(BalanceError::InsufficientRgb {
            contract_id,
            required,
            available,
        })) => {
            assert_eq!(contract_id, "contract-x");
            assert_eq!(required, 81);
            assert_eq!(available, 80);
        }
        other => panic!("unexpected: {:?}", other),
    }
    assert!(!router.htlc_manager().contains(&hash));
    assert_eq!(
        router.balance_manager().btc_account(&node(0xaa)),
        Account { balance: 500_000, reserved: 0 }
    );
}

#[test]
fn reservations_count_against_the_next_payment() {
    let mut router = funded_router();
    router.send_virtual_payment(node(0xaa), node(0xbb), 300_000, None, hash_of(&[1u8; 32])).unwrap();
    let second =
        router.send_virtual_payment(node(0xaa), node(0xcc), 300_000, None, hash_of(&[2u8; 32]));
    match second {
        Err(VirtualRouterError::InsufficientBalance(BalanceError::InsufficientBtc {
            required,
            available,
        })) => {
            assert_eq!(required, 300_000);
            assert_eq!(available, 200_000);
        }
        other => panic!("unexpected: {:?}", other),
    }
    router.settle_virtual_payment(hash_of(&[1u8; 32]), PaymentPreimage([1u8; 32])).unwrap();
    assert_eq!(router.balance_manager().get_btc_balance(&node(0xaa)), 200_000);
    assert_eq!(router.balance_manager().get_btc_balance(&node(0xbb)), 300_000);
    assert_eq!(router.balance_manager().get_btc_balance(&node(0xcc)), 0);
}

#[test]
fn a_payment_hash_is_used_once() {
    let mut router = funded_router();
    let hash = hash_of(&[7u8; 32]);
    router.send_virtual_payment(node(0xaa), node(0xbb), 1000, None, hash).unwrap();
    let again = router.send_virtual_payment(node(0xaa), node(0xbb), 1000, None, hash);
    assert!(matches!(
        again,
        Err(VirtualRouterError::HtlcCreation(VirtualHtlcError::DuplicatePaymentHash))
    ));
    assert_eq!(
        router.balance_manager().btc_account(&node(0xaa)),
        Account { balance: 500_000, reserved: 1000 }
    );
    assert_eq!(router.htlc_manager().get_pending_htlcs(&node(0xbb)).len(), 1);
}

#[test]
fn a_failed_payment_frees_its_reservation() {
    let mut router = funded_router();
    let preimage = [7u8; 32];
    let hash = hash_of(&preimage);
    let transfer = Some(RgbTransfer { contract_id: contract_x(), amount: 50 });
    router.send_virtual_payment(node(0xaa), node(0xbb), 100_000, transfer, hash).unwrap();
    let result = router.complete_virtual_payment(hash, PaymentSignal::Failed);
    assert!(matches!(result, Err(VirtualRouterError::RoutingFailed(_))));
    assert_eq!(router.htlc_manager().get(&hash).unwrap().status, VirtualHtlcStatus::Failed);
    assert_eq!(
        router.balance_manager().btc_account(&node(0xaa)),
        Account { balance: 500_000, reserved: 0 }
    );
    assert_eq!(
        router.balance_manager().rgb_account(&node(0xaa), &contract_x()),
        Account { balance: 80, reserved: 0 }
    );
    let late = router.settle_virtual_payment(hash, PaymentPreimage(preimage));
    assert!(matches!(
        late,
        Err(VirtualRouterError::Settlement(VirtualHtlcError::HtlcNotFound))
    ));
    router.fail_virtual_payment(hash);
    assert_eq!(router.htlc_manager().get(&hash).unwrap().status, VirtualHtlcStatus::Failed);
    assert_eq!(router.balance_manager().get_btc_balance(&node(0xaa)), 500_000);
}

#[test]
fn a_reported_preimage_completes_the_payment() {
    let mut router = funded_router();
    let preimage = [9u8; 32];
    let hash = hash_of(&preimage);
    router.send_virtual_payment(node(0xaa), node(0xbb), 2500, None, hash).unwrap();
    let paid = router
        .complete_virtual_payment(hash, PaymentSignal::Settled(PaymentPreimage(preimage)))
        .unwrap();
    assert_eq!(paid.payment_hash, hash);
    assert_eq!(paid.preimage, PaymentPreimage(preimage));
    assert_eq!(paid.settlement.btc_settled, 2500);
    assert!(!paid.settlement.has_rgb_transfer());
    assert_eq!(paid.settlement.rgb_amount(), None);
    assert_eq!(router.balance_manager().get_btc_balance(&node(0xbb)), 2500);
}

#[test]
fn creating_an_htlc_registers_both_parties() {
    let mut router = funded_router();
    let hash = hash_of(&[7u8; 32]);
    router.send_virtual_payment(node(0xaa), node(0xbb), 1000, None, hash).unwrap();
    let registry = router.htlc_manager().channel_manager();
    assert_eq!(registry.get_payments_for_virtual_node(&node(0xaa).to_hex()), vec![hash.to_hex()]);
    assert_eq!(registry.get_payments_for_virtual_node(&node(0xbb).to_hex()), vec![hash.to_hex()]);
    assert!(registry.get_payments_for_virtual_node(&node(0xcc).to_hex()).is_empty());
    assert_eq!(router.htlc_manager().get_pending_htlcs(&node(0xaa)).len(), 1);
    assert_eq!(router.htlc_manager().get_pending_htlcs(&node(0xbb)).len(), 1);
    assert!(router.htlc_manager().get_pending_htlcs(&node(0xcc)).is_empty());
}

#[test]
fn invoices_carry_a_fresh_preimage_and_its_hash() {
    let router = router();
    let request = Some(RgbInvoiceRequest { contract_id: contract_x(), amount: 5 });
    let first = router.create_virtual_invoice(node(0xbb), Some(1000), request, 600).unwrap();
    let second = router.create_virtual_invoice(node(0xbb), None, None, 60).unwrap();
    assert_eq!(first.payment_hash, hash_of(&first.preimage.0));
    assert_eq!(second.payment_hash, hash_of(&second.preimage.0));
    assert_ne!(first.preimage, second.preimage);
    assert_ne!(first.payment_hash.0, first.preimage.0);
    assert_eq!(first.virtual_node, node(0xbb));
    assert_eq!(first.btc_amount_msat, Some(1000));
    assert_eq!(first.expiry_sec, 600);
    assert_eq!(first.rgb_request.as_ref().unwrap().amount, 5);
    assert_eq!(second.btc_amount_msat, None);
    assert!(second.rgb_request.is_none());
}

#[test]
fn paying_an_invoice_sends_what_it_asks_for() {
    let mut router = funded_router();
    let request = Some(RgbInvoiceRequest { contract_id: contract_x(), amount: 5 });
    let invoice = router.create_virtual_invoice(node(0xbb), Some(1000), request, 600).unwrap();
    router.pay_virtual_invoice(node(0xaa), &invoice).unwrap();
    let pending = router.htlc_manager().get_pending_htlcs(&node(0xbb));
    assert_eq!(pending.len(), 1);
    assert_eq!(pending[0].payment_hash, invoice.payment_hash);
    assert_eq!(pending[0].btc_amount_msat, 1000);
    assert_eq!(pending[0].rgb_transfer.as_ref().unwrap().amount, 5);
    assert_eq!(pending[0].from_virtual_node, node(0xaa));
    router.settle_virtual_payment(invoice.payment_hash, invoice.preimage).unwrap();
    assert_eq!(router.balance_manager().get_btc_balance(&node(0xbb)), 1000);
    assert_eq!(router.balance_manager().get_rgb_balance(&node(0xbb), &contract_x()), 5);

    let open = router.create_virtual_invoice(node(0xcc), None, None, 600).unwrap();
    router.pay_virtual_invoice(node(0xaa), &open).unwrap();
    let pending = router.htlc_manager().get_pending_htlcs(&node(0xcc));
    assert_eq!(pending[0].btc_amount_msat, 0);
    assert!(pending[0].rgb_transfer.is_none());
}

#[test]
fn htlc_ledger_settles_with_a_given_digest() {
    let mut ledger = VirtualHtlcManager::new(VirtualChannelManager::new());
    let hash = PaymentHash([42u8; 32]);
    ledger.create_virtual_htlc(hash, node(1), node(2), 1_000_000, None).unwrap();
    assert!(matches!(
        ledger.create_virtual_htlc(hash, node(1), node(2), 1, None),
        Err(VirtualHtlcError::DuplicatePaymentHash)
    ));
    let preimage = PaymentPreimage([1u8; 32]);
    assert!(matches!(
        ledger.settle_with_digest(hash, preimage, &[41u8; 32]),
        Err(VirtualHtlcError::InvalidPreimage)
    ));
    let settlement = ledger.settle_with_digest(hash, preimage, &[42u8; 32]).unwrap();
    assert_eq!(settlement.btc_settled, 1_000_000);
    assert!(matches!(
        ledger.settle_with_digest(hash, preimage, &[42u8; 32]),
        Err(VirtualHtlcError::HtlcNotFound)
    ));
    assert!(ledger.fail_virtual_htlc(hash).is_ok());
    assert_eq!(ledger.get(&hash).unwrap().status, VirtualHtlcStatus::Settled);
    assert!(ledger.fail_virtual_htlc(PaymentHash([0u8; 32])).is_ok());
    assert_eq!(VirtualHtlcError::HtlcNotFound.message(), "HTLC not found");
    assert_eq!(
        VirtualHtlcError::Database("down".to_string()).message(),
        "Database error: down"
    );
}

#[test]
fn registry_can_be_filled_through_the_ledger() {
    let mut ledger = VirtualHtlcManager::new(VirtualChannelManager::new());
    ledger.channel_manager_mut().map_channel_to_virtual_node("ch1", "03aa", "alice");
    assert_eq!(ledger.channel_manager().get_channels_for_virtual_node("03aa"), vec!["ch1"]);
}

#[test]
fn old_pending_payments_are_swept() {
    let mut router = funded_router();
    router.advance_clock(100);
    let early = hash_of(&[1u8; 32]);
    router.send_virtual_payment(node(0xaa), node(0xbb), 1000, None, early).unwrap();
    router.advance_clock(150);
    let settled = hash_of(&[2u8; 32]);
    router.send_virtual_payment(node(0xaa), node(0xbb), 2000, None, settled).unwrap();
    router.settle_virtual_payment(settled, PaymentPreimage([2u8; 32])).unwrap();
    let late = hash_of(&[3u8; 32]);
    router.send_virtual_payment(node(0xaa), node(0xcc), 4000, None, late).unwrap();
    assert_eq!(
        router.balance_manager().btc_account(&node(0xaa)),
        Account { balance: 498_000, reserved: 5000 }
    );

    router.advance_clock(159);
    assert!(router.sweep_expired(60).is_empty());
    router.advance_clock(160);
    router.advance_clock(120);
    assert_eq!(router.sweep_expired(60), vec![early]);
    assert_eq!(router.htlc_manager().get(&early).unwrap().status, VirtualHtlcStatus::Failed);
    assert_eq!(router.htlc_manager().get(&settled).unwrap().status, VirtualHtlcStatus::Settled);
    assert_eq!(router.htlc_manager().get(&late).unwrap().status, VirtualHtlcStatus::Pending);
    assert_eq!(
        router.balance_manager().btc_account(&node(0xaa)),
        Account { balance: 498_000, reserved: 4000 }
    );
    assert!(router.sweep_expired(60).is_empty());
    router.advance_clock(u64::MAX);
    assert_eq!(router.sweep_expired(60), vec![late]);
    assert!(router.sweep_expired(0).is_empty());
    assert_eq!(
        router.balance_manager().btc_account(&node(0xaa)),
        Account { balance: 498_000, reserved: 0 }
    );
    assert!(router.htlc_manager().expired_payments(0).is_empty());
}

#[test]
fn channels_can_be_registered_through_the_router() {
    let mut router = router();
    router.map_channel_to_virtual_node("ch1", "03aa", "alice");
    router.map_channel_to_virtual_node("ch1", "03bb", "bob");
    let registry = router.htlc_manager().channel_manager();
    assert_eq!(registry.get_virtual_node_for_channel("ch1"), Some("03bb".to_string()));
}
