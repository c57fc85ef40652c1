use spending_card::account::Address;
use spending_card::smart_card::SmartWallet;

#[test]
fn wallet_new_starts_empty() {
    let w = SmartWallet::new(Address(1), 1000);
    assert_eq!(w.get_owner(), Address(1));
    assert_eq!(w.get_spending_info(), (1000, 0, 1000));
    assert!(!w.is_delegate_address(Address(2)));
}

#[test]
fn wallet_add_and_remove_delegate() {
    let mut w = SmartWallet::new(Address(1), 1000);
    w.add_delegate(Address(1), Address(2));
    w.add_delegate(Address(1), Address(3));
    assert!(w.is_delegate_address(Address(2)));
    assert!(w.is_delegate_address(Address(3)));
    assert!(!w.is_delegate_address(Address(4)));

    w.remove_delegate(Address(1), Address(2));
    assert!(!w.is_delegate_address(Address(2)));
    assert!(w.is_delegate_address(Address(3)));
}

#[test]
fn wallet_add_delegate_twice_is_idempotent() {
    let mut w = SmartWallet::new(Address(1), 1000);
    w.add_delegate(Address(1), Address(2));
    w.add_delegate(Address(1), Address(2));
    assert!(w.is_delegate_address(Address(2)));
    w.remove_delegate(Address(1), Address(2));
    assert!(!w.is_delegate_address(Address(2)));
}

#[test]
fn wallet_remove_absent_delegate_changes_nothing() {
    let mut w = SmartWallet::new(Address(1), 1000);
    w.add_delegate(Address(1), Address(2));
    w.remove_delegate(Address(1), Address(5));
    assert!(w.is_delegate_address(Address(2)));
}

#[test]
fn wallet_transfer_accumulates_spent() {
    let mut w = SmartWallet::new(Address(1), 1000);
    w.add_delegate(Address(1), Address(2));
    // Delegate spends 400 out of a balance of 10 000.
    assert!(w.transfer(Address(2), 10_000, Address(9), 400));
    assert_eq!(w.get_spending_info(), (1000, 400, 600));
    // The owner may spend too, up to the limit exactly.
    assert!(w.transfer(Address(1), 10_000, Address(9), 600));
    assert_eq!(w.get_spending_info(), (1000, 1000, 0));
}

#[test]
fn wallet_update_spending_limit() {
    let mut w = SmartWallet::new(Address(1), 1000);
    w.update_spending_limit(Address(1), 2000);
    assert_eq!(w.get_spending_info(), (2000, 0, 2000));
}
