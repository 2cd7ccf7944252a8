use pallet_runtime::balances::{Call, Pallet};
use pallet_runtime::support::{Dispatch, DispatchError};

#[test]
fn init_balances() {
    let mut b = Pallet::new();

    assert_eq!(b.balance(&"alice".to_string()), 0);
    b.set_balance(&"alice".to_string(), 100);
    assert_eq!(b.balance(&"alice".to_string()), 100);
    assert_eq!(b.balance(&"bob".to_string()), 0);
}

#[test]
fn transfer_balance() {
    let mut balances = Pallet::new();

    assert_eq!(
        balances.transfer("alice".to_string(), "bob".to_string(), 51),
        Err(DispatchError::InsufficientFunds)
    );
    assert_eq!(DispatchError::InsufficientFunds.message(), "Not enough funds.");

    balances.set_balance(&"alice".to_string(), 100);
    assert_eq!(balances.transfer("alice".to_string(), "bob".to_string(), 51), Ok(()));
    assert_eq!(balances.balance(&"alice".to_string()), 49);
    assert_eq!(balances.balance(&"bob".to_string()), 51);

    assert_eq!(
        balances.transfer("alice".to_string(), "bob".to_string(), 51),
        Err(DispatchError::InsufficientFunds)
    );
}

#[test]
fn transfer_keeps_total() {
    let mut b = Pallet::new();
    b.set_balance(&"alice".to_string(), 70);
    b.set_balance(&"bob".to_string(), 30);
    assert_eq!(b.transfer("alice".to_string(), "bob".to_string(), 25), Ok(()));
    assert_eq!(b.balance(&"alice".to_string()), 45);
    assert_eq!(b.balance(&"bob".to_string()), 55);
    assert_eq!(
        b.balance(&"alice".to_string()) + b.balance(&"bob".to_string()),
        100
    );
}

#[test]
fn transfer_insufficient_changes_nothing() {
    let mut b = Pallet::new();
    b.set_balance(&"alice".to_string(), 10);
    b.set_balance(&"bob".to_string(), 5);
    assert_eq!(
        b.transfer("alice".to_string(), "bob".to_string(), 11),
        Err(DispatchError::InsufficientFunds)
    );
    assert_eq!(b.balance(&"alice".to_string()), 10);
    assert_eq!(b.balance(&"bob".to_string()), 5);
}

#[test]
fn transfer_overflow_changes_nothing() {
    let mut b = Pallet::new();
    b.set_balance(&"alice".to_string(), 10);
    b.set_balance(&"bob".to_string(), u128::MAX);
    assert_eq!(
        b.transfer("alice".to_string(), "bob".to_string(), 1),
        Err(DispatchError::BalanceOverflow)
    );
    assert_eq!(b.balance(&"alice".to_string()), 10);
    assert_eq!(b.balance(&"bob".to_string()), u128::MAX);
    assert_eq!(
        DispatchError::BalanceOverflow.message(),
        "Maximum amount of funds reached"
    );
}

#[test]
fn transfer_of_whole_balance_and_to_max() {
    let mut b = Pallet::new();
    b.set_balance(&"alice".to_string(), 10);
    b.set_balance(&"bob".to_string(), u128::MAX - 10);
    assert_eq!(b.transfer("alice".to_string(), "bob".to_string(), 10), Ok(()));
    assert_eq!(b.balance(&"alice".to_string()), 0);
    assert_eq!(b.balance(&"bob".to_string()), u128::MAX);
}

#[test]
fn transfer_to_self_keeps_balance() {
    let mut b = Pallet::new();
    b.set_balance(&"alice".to_string(), 10);
    assert_eq!(b.transfer("alice".to_string(), "alice".to_string(), 4), Ok(()));
    assert_eq!(b.balance(&"alice".to_string()), 10);
    assert_eq!(
        b.transfer("alice".to_string(), "alice".to_string(), 11),
        Err(DispatchError::InsufficientFunds)
    );
    assert_eq!(b.balance(&"alice".to_string()), 10);
}

#[test]
fn transfer_to_self_at_max_overflows() {
    let mut b = Pallet::new();
    b.set_balance(&"alice".to_string(), u128::MAX);
    assert_eq!(
        b.transfer("alice".to_string(), "alice".to_string(), 1),
        Err(DispatchError::BalanceOverflow)
    );
    assert_eq!(b.balance(&"alice".to_string()), u128::MAX);
}

#[test]
fn balances_dispatch_routes_transfer() {
    let mut b = Pallet::new();
    b.set_balance(&"alice".to_string(), 9);
    let call = Call::Transfer { to: "bob".to_string(), amount: 4 };
    assert_eq!(b.dispatch("alice".to_string(), call), Ok(()));
    assert_eq!(b.balance(&"alice".to_string()), 5);
    assert_eq!(b.balance(&"bob".to_string()), 4);
}
