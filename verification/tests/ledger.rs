//! The vault ledger: deposits, withdrawals, strategy subscriptions, and
//! the events each call records.

use notifications::vault::{Error, Event, Pallet, MAX_SUBSCRIBERS};
use notifications::weights::{Weight, WeightInfo, WeightInfoImpl};

#[test]
fn it_works_for_default_value() {
    let mut pallet = Pallet::new();

    assert!(pallet.deposit_funds(1, 100).is_ok());
    assert_eq!(pallet.balance(1), 100);
    assert_eq!(
        pallet.last_event(),
        Some(Event::Deposited { who: 1, amount: 100 })
    );

    assert!(pallet.withdraw_funds(1, 50).is_ok());
    assert_eq!(pallet.balance(1), 50);
    assert_eq!(
        pallet.last_event(),
        Some(Event::Withdrawn { who: 1, amount: 50 })
    );
}

#[test]
fn it_subscribes_to_a_strategy() {
    let mut pallet = Pallet::new();

    // Insert an empty strategy.
    pallet.create_strategy(1);

    assert!(pallet.subscribe_to_strategy(1, 1).is_ok());

    let subscribers = pallet.strategy_subscribers(1).unwrap();
    assert!(subscribers.contains(&1));

    assert_eq!(
        pallet.last_event(),
        Some(Event::SubscribedToStrategy { who: 1, strategy_id: 1 })
    );
}

#[test]
fn it_fails_if_strategy_does_not_exist() {
    let mut pallet = Pallet::new();

    // No strategy inserted at id 99.
    assert_eq!(
        pallet.subscribe_to_strategy(1, 99),
        Err(Error::InvalidStrategy)
    );
    assert_eq!(pallet.last_event(), None);
}

#[test]
fn it_prevents_duplicate_subscription() {
    let mut pallet = Pallet::new();

    pallet.create_strategy(1);

    assert!(pallet.subscribe_to_strategy(1, 1).is_ok());

    assert_eq!(
        pallet.subscribe_to_strategy(1, 1),
        Err(Error::AlreadySubscribed)
    );
}

#[test]
fn it_executes_strategy() {
    let mut pallet = Pallet::new();

    pallet.create_strategy(1);

    assert!(pallet.execute_strategy(1, 1, 100).is_ok());

    assert_eq!(
        pallet.last_event(),
        Some(Event::StrategyExecuted { strategy_id: 1, amount: 100 })
    );
}

#[test]
fn it_fails_if_insufficient_funds_on_withdrawal() {
    let mut pallet = Pallet::new();

    assert_eq!(pallet.withdraw_funds(1, 100), Err(Error::InsufficientFunds));
    assert_eq!(pallet.balance(1), 0);
}

#[test]
fn it_fails_if_storage_overflow_occur() {
    let mut pallet = Pallet::new();

    // Pre-fund account 1 to max - 1, then try to deposit 2 to force
    // overflow.
    pallet.set_balance(1, u32::MAX - 1);

    assert_eq!(pallet.deposit_funds(1, 2), Err(Error::StorageOverflow));
    assert_eq!(pallet.balance(1), u32::MAX - 1);
}

#[test]
fn a_full_strategy_takes_no_more_subscribers() {
    let mut pallet = Pallet::new();
    pallet.create_strategy(7);
    for who in 0..MAX_SUBSCRIBERS as u64 {
        assert!(pallet.subscribe_to_strategy(who, 7).is_ok());
    }
    assert_eq!(
        pallet.subscribe_to_strategy(MAX_SUBSCRIBERS as u64, 7),
        Err(Error::StorageOverflow)
    );
    assert_eq!(
        pallet.strategy_subscribers(7).unwrap().len(),
        MAX_SUBSCRIBERS
    );
}

#[test]
fn accounts_do_not_interfere() {
    let mut pallet = Pallet::new();
    assert!(pallet.deposit_funds(1, 10).is_ok());
    assert!(pallet.deposit_funds(2, 20).is_ok());
    assert!(pallet.withdraw_funds(2, 5).is_ok());
    assert_eq!(pallet.balance(1), 10);
    assert_eq!(pallet.balance(2), 15);
    assert_eq!(pallet.balance(3), 0);
}

#[test]
fn call_weights_are_fixed() {
    assert_eq!(
        WeightInfoImpl::deposit_funds(),
        Weight { ref_time: 10_000, proof_size: 0 }
    );
    assert_eq!(
        WeightInfoImpl::withdraw_funds(),
        Weight { ref_time: 10_000, proof_size: 0 }
    );
    assert_eq!(
        WeightInfoImpl::subscribe_to_strategy(),
        Weight { ref_time: 15_000, proof_size: 0 }
    );
    assert_eq!(
        WeightInfoImpl::execute_strategy(),
        Weight { ref_time: 20_000, proof_size: 0 }
    );
}
