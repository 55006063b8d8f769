use virtual_nodes::types::ContractId;
use virtual_nodes::types::PaymentHash;
use virtual_nodes::types::PaymentPreimage;
use virtual_nodes::types::PublicKey;
use virtual_nodes::virtual_balance::Account;
use virtual_nodes::virtual_balance::BalanceError;
use virtual_nodes::virtual_balance::VirtualBalanceManager;
use virtual_nodes::virtual_htlc::RgbTransfer;
use virtual_nodes::virtual_htlc::VirtualSettlement;

fn node(fill: u8) -> PublicKey {
    PublicKey([fill; 33])
}

fn settlement(from: u8, to: u8, btc: u64, rgb: Option<u64>) -> VirtualSettlement {
    VirtualSettlement {
        payment_hash: PaymentHash([1u8; 32]),
        preimage: PaymentPreimage([2u8; 32]),
        btc_settled: btc,
        rgb_settled: rgb.map(|amount| RgbTransfer { contract_id: ContractId::new("x"), amount }),
        from_virtual_node: node(from),
        to_virtual_node: node(to),
    }
}

#[test]
fn a_new_ledger_is_empty() {
    let ledger = VirtualBalanceManager::new();
    assert_eq!(ledger.get_btc_balance(&node(1)), 0);
    assert_eq!(ledger.get_rgb_balance(&node(1), &ContractId::new("x")), 0);
    assert_eq!(ledger.btc_account(&node(1)), Account { balance: 0, reserved: 0 });
}

#[test]
fn a_debit_never_goes_below_zero() {
    let mut ledger = VirtualBalanceManager::new();
    ledger.deposit_btc(&node(1), 100);
    ledger.apply_settlement(&settlement(1, 2, 60, None)).unwrap();
    assert_eq!(ledger.get_btc_balance(&node(1)), 40);
    assert_eq!(ledger.get_btc_balance(&node(2)), 60);
    ledger.apply_settlement(&settlement(1, 2, 60, None)).unwrap();
    assert_eq!(ledger.get_btc_balance(&node(1)), 0);
    assert_eq!(ledger.get_btc_balance(&node(2)), 120);
    ledger.apply_settlement(&settlement(1, 2, 60, Some(5))).unwrap();
    assert_eq!(ledger.get_btc_balance(&node(1)), 0);
    assert_eq!(ledger.get_rgb_balance(&node(1), &ContractId::new("x")), 0);
    assert_eq!(ledger.get_rgb_balance(&node(2), &ContractId::new("x")), 5);
}

#[test]
fn a_credit_stops_at_the_largest_amount() {
    let mut ledger = VirtualBalanceManager::new();
    ledger.deposit_btc(&node(2), u64::MAX - 10);
    ledger.deposit_btc(&node(1), 100);
    ledger.apply_settlement(&settlement(1, 2, 50, None)).unwrap();
    assert_eq!(ledger.get_btc_balance(&node(2)), u64::MAX);
    assert_eq!(ledger.get_btc_balance(&node(1)), 50);
}

#[test]
fn paying_oneself_changes_nothing_when_covered() {
    let mut ledger = VirtualBalanceManager::new();
    ledger.deposit_btc(&node(1), 100);
    ledger.apply_settlement(&settlement(1, 1, 70, None)).unwrap();
    assert_eq!(ledger.get_btc_balance(&node(1)), 100);
}

#[test]
fn sufficiency_looks_at_the_currency_first() {
    let mut ledger = VirtualBalanceManager::new();
    ledger.deposit_btc(&node(1), 100);
    ledger.deposit_rgb(&node(1), &ContractId::new("x"), 10);
    let transfer = RgbTransfer { contract_id: ContractId::new("x"), amount: 11 };
    assert!(ledger.check_sufficient_balance(&node(1), 100, None).is_ok());
    assert!(ledger.check_sufficient_balance(&node(1), 0, None).is_ok());
    match ledger.check_sufficient_balance(&node(1), 101, Some(&transfer)) {
        Err(BalanceError::InsufficientBtc { required, available }) => {
            assert_eq!((required, available), (101, 100));
        }
        other => panic!("unexpected: {:?}", other),
    }
    match ledger.check_sufficient_balance(&node(1), 100, Some(&transfer)) {
        Err(BalanceError::InsufficientRgb { contract_id, required, available }) => {
            assert_eq!(contract_id, "x");
            assert_eq!((required, available), (11, 10));
        }
        other => panic!("unexpected: {:?}", other),
    }
    let other = RgbTransfer { contract_id: ContractId::new("y"), amount: 1 };
    assert!(matches!(
        ledger.check_sufficient_balance(&node(1), 1, Some(&other)),
        Err(BalanceError::InsufficientRgb { available: 0, .. })
    ));
    assert_eq!(
        BalanceError::InsufficientBtc { required: 1, available: 0 }.message(),
        "Insufficient BTC balance"
    );
}

#[test]
fn reserve_and_release() {
    let mut ledger = VirtualBalanceManager::new();
    ledger.deposit_btc(&node(1), 100);
    ledger.deposit_rgb(&node(1), &ContractId::new("x"), 10);
    let transfer = RgbTransfer { contract_id: ContractId::new("x"), amount: 4 };
    ledger.reserve(&node(1), 60, Some(&transfer)).unwrap();
    assert_eq!(ledger.btc_account(&node(1)), Account { balance: 100, reserved: 60 });
    assert_eq!(
        ledger.rgb_account(&node(1), &ContractId::new("x")),
        Account { balance: 10, reserved: 4 }
    );
    assert!(matches!(
        ledger.reserve(&node(1), 41, None),
        Err(BalanceError::InsufficientBtc { required: 41, available: 40 })
    ));
    assert_eq!(ledger.btc_account(&node(1)), Account { balance: 100, reserved: 60 });
    ledger.reserve(&node(1), 40, None).unwrap();
    assert_eq!(ledger.btc_account(&node(1)), Account { balance: 100, reserved: 100 });
    ledger.release(&node(1), 60, Some(&transfer));
    assert_eq!(ledger.btc_account(&node(1)), Account { balance: 100, reserved: 40 });
    assert_eq!(
        ledger.rgb_account(&node(1), &ContractId::new("x")),
        Account { balance: 10, reserved: 0 }
    );
    ledger.release(&node(1), 1000, None);
    assert_eq!(ledger.btc_account(&node(1)), Account { balance: 100, reserved: 0 });
}

#[test]
fn draining_settlements_never_leave_a_negative_balance() {
    let mut ledger = VirtualBalanceManager::new();
    ledger.deposit_btc(&node(1), 250);
    let mut seen = vec![];
    for amount in [100u64, 100, 100, 100] {
        ledger.apply_settlement(&settlement(1, 2, amount, None)).unwrap();
        seen.push(ledger.get_btc_balance(&node(1)));
    }
    assert_eq!(seen, vec![150, 50, 0, 0]);
    assert_eq!(ledger.get_btc_balance(&node(2)), 400);
}
