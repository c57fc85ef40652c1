use spending_card::account::Address;
use spending_card::basic_card::{CardContract, Error};

#[test]
fn bare_new_records_owner_and_delegate() {
    let c = CardContract::new(Address(1), Address(2));
    assert_eq!(c.get_delegate(), Address(2));
}

#[test]
fn bare_pay_by_delegate_authorized() {
    let mut c = CardContract::new(Address(1), Address(2));
    assert_eq!(c.pay(Address(2), Address(9), 1_000_000), Ok(()));
    assert_eq!(c.get_delegate(), Address(2));
}

#[test]
fn bare_pay_by_owner_refused() {
    // Unlike the full ledger, the bare one authorizes the delegate alone.
    let mut c = CardContract::new(Address(1), Address(2));
    assert_eq!(c.pay(Address(1), Address(9), 5), Err(Error::NotDelegate));
}

#[test]
fn bare_pay_by_stranger_refused() {
    let mut c = CardContract::new(Address(1), Address(2));
    assert_eq!(c.pay(Address(3), Address(9), 5), Err(Error::NotDelegate));
}

#[test]
fn bare_set_delegate_by_owner_replaces() {
    let mut c = CardContract::new(Address(1), Address(2));
    assert_eq!(c.set_delegate(Address(1), Address(7)), Ok(()));
    assert_eq!(c.get_delegate(), Address(7));
    assert_eq!(c.pay(Address(7), Address(9), 5), Ok(()));
    assert_eq!(c.pay(Address(2), Address(9), 5), Err(Error::NotDelegate));
}

#[test]
fn bare_set_delegate_by_non_owner_refused() {
    let mut c = CardContract::new(Address(1), Address(2));
    assert_eq!(c.set_delegate(Address(2), Address(7)), Err(Error::NotOwner));
    assert_eq!(c.get_delegate(), Address(2));
}
