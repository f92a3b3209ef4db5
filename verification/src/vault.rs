//! A minimal vault ledger.
//!
//! Accounts deposit and withdraw funds held in per-account vaults, and may
//! subscribe to investment strategies, each carrying a bounded list of
//! subscribers. Every call either succeeds, records its event, and changes
//! exactly what it says, or fails with its error and changes nothing.

use vstd::prelude::*;
use std::collections::HashMap;

verus! {

broadcast use vstd::std_specs::hash::group_hash_axioms;

/// The most subscribers one strategy can carry.
pub const MAX_SUBSCRIBERS: usize = 100;

/// What happened on a successful call.
#[derive(Clone, Copy, Debug, PartialEq, Eq, Structural)]
pub enum Event {
    /// Funds were deposited into an account's vault.
    Deposited { who: u64, amount: u32 },
    /// An account subscribed to a strategy.
    SubscribedToStrategy { who: u64, strategy_id: u32 },
    /// Funds were withdrawn from an account's vault.
    Withdrawn { who: u64, amount: u32 },
    /// A strategy was executed with the given amount.
    StrategyExecuted { strategy_id: u32, amount: u32 },
}

/// Why a call failed.
#[derive(Clone, Copy, Debug, PartialEq, Eq, Structural)]
pub enum Error {
    /// The vault holds less than the requested withdrawal.
    InsufficientFunds,
    /// The account already subscribes to this strategy.
    AlreadySubscribed,
    /// No such strategy exists.
    InvalidStrategy,
    /// A balance or a subscriber list cannot grow any further.
    StorageOverflow,
}

/// The ledger: every vault balance, every strategy's subscribers, and the
/// last event deposited.
pub struct Pallet {
    vaults: HashMap<u64, u32>,
    strategies: HashMap<u32, Vec<u64>>,
    last_event: Option<Event>,
}

impl Pallet {
    /// The balance of `who`'s vault; an account without one holds zero.
    pub closed spec fn spec_balance(&self, who: u64) -> u32 {
        if self.vaults@.contains_key(who) {
            self.vaults@[who]
        } else {
            0
        }
    }

    /// The subscribers of strategy `id`, or `None` where none exists.
    pub closed spec fn spec_strategy(&self, id: u32) -> Option<Seq<u64>> {
        if self.strategies@.contains_key(id) {
            Option::Some(self.strategies@[id]@)
        } else {
            Option::None
        }
    }

    /// The event of the last successful call, if any.
    pub closed spec fn spec_last_event(&self) -> Option<Event> {
        self.last_event
    }

    /// A fresh ledger: no vaults, no strategies, no event.
    pub fn new() -> (r: Self)
        ensures
            forall|who: u64| r.spec_balance(who) == 0,
            forall|id: u32| r.spec_strategy(id) == Option::<Seq<u64>>::None,
            r.spec_last_event() == Option::<Event>::None,
    {
        Pallet { vaults: HashMap::new(), strategies: HashMap::new(), last_event: Option::None }
    }

    /// The balance of `who`'s vault.
    pub fn balance(&self, who: u64) -> (r: u32)
        ensures
            r == self.spec_balance(who),
    {
        match self.vaults.get(&who) {
            Option::Some(balance) => *balance,
            Option::None => 0,
        }
    }

    /// The subscribers of strategy `id`, or `None` where none exists.
    pub fn strategy_subscribers(&self, id: u32) -> (r: Option<Vec<u64>>)
        ensures
            match r {
                Option::Some(subs) => self.spec_strategy(id) == Option::Some(subs@),
                Option::None => self.spec_strategy(id) == Option::<Seq<u64>>::None,
            },
    {
        match self.strategies.get(&id) {
            Option::Some(subs) => Option::Some(copy_accounts(subs)),
            Option::None => Option::None,
        }
    }

    /// The event of the last successful call, if any.
    pub fn last_event(&self) -> (r: Option<Event>)
        ensures
            r == self.spec_last_event(),
    {
        self.last_event
    }

    /// Put `amount` into `who`'s vault, unless the balance would overflow.
    pub fn deposit_funds(&mut self, who: u64, amount: u32) -> (r: Result<(), Error>)
        ensures
            ({
                let current = old(self).spec_balance(who);
                if current + amount > u32::MAX {
                    r == Result::<(), Error>::Err(Error::StorageOverflow) && *final(self) == *old(self)
                } else {
                    r == Result::<(), Error>::Ok(()) && final(self).spec_balance(who) == current
                        + amount && final(self).spec_last_event() == Option::Some(
                        Event::Deposited { who, amount },
                    ) && (forall|a: u64|
                        a != who ==> final(self).spec_balance(a) == old(self).spec_balance(a))
                        && (forall|id: u32|
                        final(self).spec_strategy(id) == old(self).spec_strategy(id))
                }
            }),
    {
        let current: u32 = self.balance(who);
        if amount > u32::MAX - current {
            return Result::Err(Error::StorageOverflow);
        }
        self.vaults.insert(who, current + amount);
        self.last_event = Option::Some(Event::Deposited { who, amount });
        Result::Ok(())
    }

    /// Take `amount` out of `who`'s vault, unless it holds less than that.
    pub fn withdraw_funds(&mut self, who: u64, amount: u32) -> (r: Result<(), Error>)
        ensures
            ({
                let current = old(self).spec_balance(who);
                if current < amount {
                    r == Result::<(), Error>::Err(Error::InsufficientFunds) && *final(self) == *old(self)
                } else {
                    r == Result::<(), Error>::Ok(()) && final(self).spec_balance(who) == current
                        - amount && final(self).spec_last_event() == Option::Some(
                        Event::Withdrawn { who, amount },
                    ) && (forall|a: u64|
                        a != who ==> final(self).spec_balance(a) == old(self).spec_balance(a))
                        && (forall|id: u32|
                        final(self).spec_strategy(id) == old(self).spec_strategy(id))
                }
            }),
    {
        let current: u32 = self.balance(who);
        if current < amount {
            return Result::Err(Error::InsufficientFunds);
        }
        self.vaults.insert(who, current - amount);
        self.last_event = Option::Some(Event::Withdrawn { who, amount });
        Result::Ok(())
    }

    /// Create, or reset to empty, the strategy `id`.
    pub fn create_strategy(&mut self, id: u32)
        ensures
            final(self).spec_strategy(id) == Option::Some(Seq::<u64>::empty()),
            forall|other: u32|
                other != id ==> final(self).spec_strategy(other) == old(self).spec_strategy(other),
            forall|who: u64| final(self).spec_balance(who) == old(self).spec_balance(who),
            final(self).spec_last_event() == old(self).spec_last_event(),
    {
        let empty: Vec<u64> = Vec::new();
        self.strategies.insert(id, empty);
    }

    /// Set `who`'s vault to exactly `amount`, as a genesis state would.
    pub fn set_balance(&mut self, who: u64, amount: u32)
        ensures
            final(self).spec_balance(who) == amount,
            forall|a: u64| a != who ==> final(self).spec_balance(a) == old(self).spec_balance(a),
            forall|id: u32| final(self).spec_strategy(id) == old(self).spec_strategy(id),
            final(self).spec_last_event() == old(self).spec_last_event(),
    {
        self.vaults.insert(who, amount);
    }

    /// Subscribe `who` to strategy `id`: the strategy must exist, `who`
    /// must not already subscribe, and the list must have room.
    pub fn subscribe_to_strategy(&mut self, who: u64, strategy_id: u32) -> (r: Result<(), Error>)
        ensures
            ({
                match old(self).spec_strategy(strategy_id) {
                    Option::None => r == Result::<(), Error>::Err(Error::InvalidStrategy) && *final(self) == *old(self),
                    Option::Some(subs) => if subs.contains(who) {
                        r == Result::<(), Error>::Err(Error::AlreadySubscribed) && *final(self) == *old(self)
                    } else if subs.len() >= MAX_SUBSCRIBERS {
                        r == Result::<(), Error>::Err(Error::StorageOverflow) && *final(self) == *old(self)
                    } else {
                        r == Result::<(), Error>::Ok(()) && final(self).spec_strategy(strategy_id)
                            == Option::Some(subs.push(who)) && final(self).spec_last_event()
                            == Option::Some(Event::SubscribedToStrategy { who, strategy_id }) && (
                        forall|other: u32|
                            other != strategy_id ==> final(self).spec_strategy(other) == old(
                                self,
                            ).spec_strategy(other)) && (forall|a: u64|
                            final(self).spec_balance(a) == old(self).spec_balance(a))
                    },
                }
            }),
    {
        let subscribers: Vec<u64> = match self.strategies.get(&strategy_id) {
            Option::None => {
                return Result::Err(Error::InvalidStrategy);
            },
            Option::Some(subs) => copy_accounts(subs),
        };
        if contains_account(&subscribers, who) {
            return Result::Err(Error::AlreadySubscribed);
        }
        if subscribers.len() >= MAX_SUBSCRIBERS {
            return Result::Err(Error::StorageOverflow);
        }
        let mut updated = subscribers;
        updated.push(who);
        self.strategies.insert(strategy_id, updated);
        self.last_event = Option::Some(Event::SubscribedToStrategy { who, strategy_id });
        Result::Ok(())
    }

    /// Execute strategy `id` with `amount`: this layer only records the
    /// event; the funds themselves are moved elsewhere.
    pub fn execute_strategy(&mut self, _who: u64, strategy_id: u32, amount: u32) -> (r: Result<
        (),
        Error,
    >)
        ensures
            r == Result::<(), Error>::Ok(()),
            final(self).spec_last_event() == Option::Some(
                Event::StrategyExecuted { strategy_id, amount },
            ),
            forall|a: u64| final(self).spec_balance(a) == old(self).spec_balance(a),
            forall|id: u32| final(self).spec_strategy(id) == old(self).spec_strategy(id),
    {
        self.last_event = Option::Some(Event::StrategyExecuted { strategy_id, amount });
        Result::Ok(())
    }
}

/// A copy of a subscriber list.
fn copy_accounts(v: &Vec<u64>) -> (r: Vec<u64>)
    ensures
        r@ == v@,
{
    let mut r: Vec<u64> = Vec::new();
    let mut i: usize = 0;
    while i < v.len()
        invariant
            0 <= i <= v@.len(),
            r@ == v@.subrange(0, i as int),
        decreases v@.len() - i,
    {
        let account: u64 = v[i];
        proof {
            assert(v@.subrange(0, i as int).push(account) =~= v@.subrange(0, i + 1 as int));
        }
        r.push(account);
        i = i + 1;
    }
    proof {
        assert(r@ =~= v@);
    }
    r
}

/// Whether `who` stands in the subscriber list.
fn contains_account(v: &Vec<u64>, who: u64) -> (r: bool)
    ensures
        r == v@.contains(who),
{
    let mut i: usize = 0;
    while i < v.len()
        invariant
            0 <= i <= v@.len(),
            forall|j: int| 0 <= j < i ==> v@[j] != who,
        decreases v@.len() - i,
    {
        if v[i] == who {
            return true;
        }
        i = i + 1;
    }
    proof {
        assert(!v@.contains(who));
    }
    false
}

} // verus!
