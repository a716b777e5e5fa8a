use pallet_runtime::balances::Pallet;

#[test]
fn transfer_balance() {
    let alice: String = "alice".to_string();
    let bob: String = "bob".to_string();
    let mut balances: Pallet = Pallet::new();

    balances.set_balance(&alice, 100);
    balances.set_balance(&bob, 100);

    let _ = balances.transfer(alice.clone(), bob.clone(), 10);

    assert_eq!(balances.balance(&alice), 90);
    assert_eq!(balances.balance(&bob), 110);
}

#[test]
fn transfer_balance_insufficient() {
    let alice: String = "alice".to_string();
    let bob: String = "bob".to_string();
    let mut balances: Pallet = Pallet::new();

    balances.set_balance(&alice, 100);
    balances.set_balance(&bob, 0);

    let result = balances.transfer(alice.clone(), bob.clone(), 200);

    assert_eq!(result.map_err(|e| e.as_str()), Err("Insufficient balance"));
}

#[test]
fn transfer_balance_overflow() {
    let alice: String = "alice".to_string();
    let bob: String = "bob".to_string();
    let mut balances: Pallet = Pallet::new();

    balances.set_balance(&alice, 100);
    balances.set_balance(&bob, u128::MAX);

    let result = balances.transfer(alice.clone(), bob.clone(), 100);

    assert_eq!(result.map_err(|e| e.as_str()), Err("Overflow when adding balance"))
}

#[test]
fn init_balances() {
    let mut balances: Pallet = Pallet::new();

    assert_eq!(balances.balance(&"alice".to_string()), 0);
    balances.set_balance(&"alice".to_string(), 100);
    assert_eq!(balances.balance(&"alice".to_string()), 100);
    assert_eq!(balances.balance(&"bob".to_string()), 0);
}

#[test]
fn transfer_conserves_total() {
    let alice: String = "alice".to_string();
    let bob: String = "bob".to_string();
    let mut balances: Pallet = Pallet::new();

    balances.set_balance(&alice, 75);
    balances.set_balance(&bob, 25);

    let result = balances.transfer(alice.clone(), bob.clone(), 30);

    assert_eq!(result, Ok(()));
    assert_eq!(balances.balance(&alice), 45);
    assert_eq!(balances.balance(&bob), 55);
    assert_eq!(balances.balance(&alice) + balances.balance(&bob), 100);
}

#[test]
fn self_transfer_moves_nothing() {
    let alice: String = "alice".to_string();
    let mut balances: Pallet = Pallet::new();

    balances.set_balance(&alice, 100);

    let result = balances.transfer(alice.clone(), alice.clone(), 30);

    assert_eq!(result, Ok(()));
    assert_eq!(balances.balance(&alice), 100);

    let too_much = balances.transfer(alice.clone(), alice.clone(), 200);
    assert_eq!(too_much.map_err(|e| e.as_str()), Err("Insufficient balance"));
    assert_eq!(balances.balance(&alice), 100);
}

#[test]
fn failed_transfer_changes_nothing() {
    let alice: String = "alice".to_string();
    let bob: String = "bob".to_string();
    let mut balances: Pallet = Pallet::new();

    balances.set_balance(&alice, 5);
    balances.set_balance(&bob, u128::MAX - 2);

    let insufficient = balances.transfer(alice.clone(), bob.clone(), 6);
    assert_eq!(insufficient.map_err(|e| e.as_str()), Err("Insufficient balance"));
    assert_eq!(balances.balance(&alice), 5);
    assert_eq!(balances.balance(&bob), u128::MAX - 2);

    let overflow = balances.transfer(alice.clone(), bob.clone(), 4);
    assert_eq!(overflow.map_err(|e| e.as_str()), Err("Overflow when adding balance"));
    assert_eq!(balances.balance(&alice), 5);
    assert_eq!(balances.balance(&bob), u128::MAX - 2);
}
