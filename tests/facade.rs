use design_patterns::facade::{Account, Ledger, Notification, SecurityCode, Wallet, WalletFacade};

#[test]
fn credit_then_debit() {
    let mut wallet = WalletFacade::new("abc".to_string(), 1234);
    assert_eq!(wallet.add_money_to_wallet(&"abc".to_string(), 1234, 10), Ok(()));
    assert_eq!(wallet.balance(), 10);
    assert_eq!(wallet.deduct_money_from_wallet(&"abc".to_string(), 1234, 5), Ok(()));
    assert_eq!(wallet.balance(), 5);
    let ledger = wallet.ledger();
    assert_eq!(ledger.len(), 2);
    assert_eq!(ledger.entry(0), ("abc".to_string(), "credit".to_string(), 10));
    assert_eq!(ledger.entry(1), ("abc".to_string(), "debit".to_string(), 5));
}

#[test]
fn wrong_account_is_refused() {
    let mut wallet = WalletFacade::new("abc".to_string(), 1234);
    assert_eq!(
        wallet.add_money_to_wallet(&"abd".to_string(), 1234, 10),
        Err("Account name is incorrect".to_string())
    );
    assert_eq!(wallet.balance(), 0);
    assert_eq!(wallet.ledger().len(), 0);
}

#[test]
fn wrong_code_is_refused() {
    let mut wallet = WalletFacade::new("abc".to_string(), 1234);
    wallet.add_money_to_wallet(&"abc".to_string(), 1234, 10).unwrap();
    assert_eq!(
        wallet.deduct_money_from_wallet(&"abc".to_string(), 4321, 5),
        Err("Security code is incorrect".to_string())
    );
    assert_eq!(wallet.balance(), 10);
    assert_eq!(wallet.ledger().len(), 1);
}

#[test]
fn wallet_parts() {
    let mut w = Wallet::new();
    w.credit_balance(7);
    w.debit_balance(7);
    assert_eq!(w.balance(), 0);
    assert_eq!(Account::new("x".to_string()).check(&"x".to_string()), Ok(()));
    assert_eq!(SecurityCode::new(1).check(2), Err("Security code is incorrect".to_string()));
    assert_eq!(Notification.send_wallet_credit_notification(), "Sending wallet credit notification");
    assert_eq!(Notification.send_wallet_debit_notification(), "Sending wallet debit notification");
    let mut ledger = Ledger::new();
    ledger.make_entry(&"x".to_string(), "credit".to_string(), 3);
    assert_eq!(ledger.entry(0), ("x".to_string(), "credit".to_string(), 3));
}
