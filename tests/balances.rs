use ledger_runtime::balances::Pallet;
use ledger_runtime::support::DispatchError;

#[test]
fn init_balances() {
    let mut balances = Pallet::new();

    assert_eq!(balances.balance(&"alice".to_string()), 0);
    balances.set_balance(&"alice".to_string(), 100);
    assert_eq!(balances.balance(&"alice".to_string()), 100);
    assert_eq!(balances.balance(&"bob".to_string()), 0);
}

#[test]
fn transfer_balance() {
    let mut balances = Pallet::new();

    assert_eq!(
        balances
            .transfer("alice".to_string(), "bob".to_string(), 51)
            .map_err(|e| e.message()),
        Err("Not enough funds.")
    );

    balances.set_balance(&"alice".to_string(), 100);
    assert_eq!(balances.transfer("alice".to_string(), "bob".to_string(), 51), Ok(()));
    assert_eq!(balances.balance(&"alice".to_string()), 49);
    assert_eq!(balances.balance(&"bob".to_string()), 51);

    assert_eq!(
        balances
            .transfer("alice".to_string(), "bob".to_string(), 51)
            .map_err(|e| e.message()),
        Err("Not enough funds.")
    );
}

#[test]
fn transfer_overflow_changes_nothing() {
    let mut balances = Pallet::new();
    balances.set_balance(&"alice".to_string(), 10);
    balances.set_balance(&"bob".to_string(), u128::MAX - 5);
    assert_eq!(
        balances.transfer("alice".to_string(), "bob".to_string(), 6),
        Err(DispatchError::Overflow)
    );
    assert_eq!(balances.balance(&"alice".to_string()), 10);
    assert_eq!(balances.balance(&"bob".to_string()), u128::MAX - 5);
    assert_eq!(balances.transfer("alice".to_string(), "bob".to_string(), 5), Ok(()));
    assert_eq!(balances.balance(&"alice".to_string()), 5);
    assert_eq!(balances.balance(&"bob".to_string()), u128::MAX);
}

#[test]
fn transfer_insufficient_changes_nothing() {
    let mut balances = Pallet::new();
    balances.set_balance(&"alice".to_string(), 30);
    balances.set_balance(&"bob".to_string(), 7);
    assert_eq!(
        balances.transfer("alice".to_string(), "bob".to_string(), 31),
        Err(DispatchError::InsufficientFunds)
    );
    assert_eq!(balances.balance(&"alice".to_string()), 30);
    assert_eq!(balances.balance(&"bob".to_string()), 7);
}

#[test]
fn transfer_whole_balance_and_zero_amount() {
    let mut balances = Pallet::new();
    balances.set_balance(&"alice".to_string(), 30);
    assert_eq!(balances.transfer("alice".to_string(), "carol".to_string(), 30), Ok(()));
    assert_eq!(balances.balance(&"alice".to_string()), 0);
    assert_eq!(balances.balance(&"carol".to_string()), 30);
    assert_eq!(balances.transfer("dave".to_string(), "carol".to_string(), 0), Ok(()));
    assert_eq!(balances.balance(&"carol".to_string()), 30);
}
