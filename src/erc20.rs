use vstd::prelude::*;
use std::collections::HashMap;
use crate::pallet::{AccountId, Balance};

verus! {

/// Reported when tokens move; `from` is absent when they are minted.
#[derive(Clone, Copy, Debug, PartialEq, Eq, Structural)]
pub struct Transfer {
    pub from: Option<AccountId>,
    pub to: Option<AccountId>,
    pub value: Balance,
}

/// Reported when `owner` lets `spender` move up to `value` of its tokens.
#[derive(Clone, Copy, Debug, PartialEq, Eq, Structural)]
pub struct Approval {
    pub owner: AccountId,
    pub spender: AccountId,
    pub value: Balance,
}

/// What the token ledger reports.
#[derive(Clone, Copy, Debug, PartialEq, Eq, Structural)]
pub enum Erc20Event {
    Transfer(Transfer),
    Approval(Approval),
}

/// A fungible token ledger: balances, allowances and the total supply.
pub struct Erc20 {
    total_supply: Balance,
    balances: HashMap<AccountId, Balance>,
    allowances: HashMap<AccountId, HashMap<AccountId, Balance>>,
    events: Vec<Erc20Event>,
}

impl Erc20 {
    /// The total supply fixed at construction.
    pub closed spec fn supply(&self) -> Balance {
        self.total_supply
    }

    /// The balance of `owner`; an account never credited holds nothing.
    pub closed spec fn balance(&self, owner: AccountId) -> Balance {
        if self.balances@.contains_key(owner) {
            self.balances@[owner]
        } else {
            0
        }
    }

    /// How much `spender` may still move out of `owner`'s balance.
    pub closed spec fn allowance_of(&self, owner: AccountId, spender: AccountId) -> Balance {
        if self.allowances@.contains_key(owner) && self.allowances@[owner]@.contains_key(spender) {
            self.allowances@[owner]@[spender]
        } else {
            0
        }
    }

    /// The events reported so far, oldest first.
    pub closed spec fn event_log(&self) -> Seq<Erc20Event> {
        self.events@
    }

    /// `self` and `other` hold the same balances, allowances and supply.
    pub open spec fn same_ledger(&self, other: &Erc20) -> bool {
        &&& self.supply() == other.supply()
        &&& forall|a: AccountId| #[trigger] self.balance(a) == other.balance(a)
        &&& forall|o: AccountId, s: AccountId| #[trigger]
            self.allowance_of(o, s) == other.allowance_of(o, s)
    }

    /// A ledger whose whole `initial_supply` belongs to `caller`.
    pub fn new(caller: AccountId, initial_supply: Balance) -> (r: Erc20)
        ensures
            r.supply() == initial_supply,
            r.balance(caller) == initial_supply,
            forall|a: AccountId| a != caller ==> #[trigger] r.balance(a) == 0,
            forall|o: AccountId, s: AccountId| #[trigger] r.allowance_of(o, s) == 0,
            r.event_log() == seq![
                Erc20Event::Transfer(Transfer { from: None, to: Some(caller), value: initial_supply }),
            ],
    {
        let mut balances: HashMap<AccountId, Balance> = HashMap::new();
        balances.insert(caller, initial_supply);
        let mut events: Vec<Erc20Event> = Vec::new();
        events.push(Erc20Event::Transfer(Transfer { from: None, to: Some(caller), value: initial_supply }));
        let r = Erc20 { total_supply: initial_supply, balances, allowances: HashMap::new(), events };
        assert(r.event_log() =~= seq![
            Erc20Event::Transfer(Transfer { from: None, to: Some(caller), value: initial_supply }),
        ]);
        r
    }

    /// The total supply.
    pub fn total_supply(&self) -> (r: Balance)
        ensures
            r == self.supply(),
    {
        self.total_supply
    }

    /// The balance of `owner`.
    pub fn balance_of(&self, owner: AccountId) -> (r: Balance)
        ensures
            r == self.balance(owner),
    {
        self.balance_of_or_zero(&owner)
    }

    fn balance_of_or_zero(&self, owner: &AccountId) -> (r: Balance)
        ensures
            r == self.balance(*owner),
    {
        match self.balances.get(owner) {
            Some(b) => *b,
            None => 0,
        }
    }

    /// Lets `spender` move up to `value` of `caller`'s tokens, replacing any
    /// earlier allowance; always succeeds.
    pub fn approve(&mut self, caller: AccountId, spender: AccountId, value: Balance) -> (r: bool)
        ensures
            r,
            final(self).supply() == old(self).supply(),
            forall|a: AccountId| #[trigger] final(self).balance(a) == old(self).balance(a),
            forall|o: AccountId, s: AccountId| #[trigger] final(self).allowance_of(o, s)
                == if o == caller && s == spender { value } else { old(self).allowance_of(o, s) },
            final(self).event_log() == old(self).event_log().push(
                Erc20Event::Approval(Approval { owner: caller, spender, value }),
            ),
    {
        self.events.push(Erc20Event::Approval(Approval { owner: caller, spender, value }));
        self.set_allowance(caller, spender, value);
        true
    }

    fn set_allowance(&mut self, owner: AccountId, spender: AccountId, value: Balance)
        ensures
            final(self).supply() == old(self).supply(),
            final(self).balances@ == old(self).balances@,
            final(self).events@ == old(self).events@,
            forall|o: AccountId, s: AccountId| #[trigger] final(self).allowance_of(o, s)
                == if o == owner && s == spender { value } else { old(self).allowance_of(o, s) },
    {
        let mut inner: HashMap<AccountId, Balance> = match self.allowances.get(&owner) {
            Some(m) => m.clone(),
            None => HashMap::new(),
        };
        inner.insert(spender, value);
        self.allowances.insert(owner, inner);
    }

    /// How much `spender` may still move out of `owner`'s balance.
    pub fn allowance(&self, owner: AccountId, spender: AccountId) -> (r: Balance)
        ensures
            r == self.allowance_of(owner, spender),
    {
        match self.allowances.get(&owner) {
            Some(m) => match m.get(&spender) {
                Some(v) => *v,
                None => 0,
            },
            None => 0,
        }
    }

    /// Whether `transfer_from_to(from, to, value)` goes through: `from` holds
    /// at least `value`, and crediting `to` does not overflow.
    pub open spec fn can_move(&self, from: AccountId, to: AccountId, value: Balance) -> bool {
        self.balance(from) >= value && self.balance(to) + value <= u128::MAX
    }

    /// The balances after a move of `value` from `from` to `to`: `from` is
    /// debited, then `to` is set to its balance before the move plus `value`.
    pub open spec fn moved(&self, later: &Erc20, from: AccountId, to: AccountId, value: Balance) -> bool {
        forall|a: AccountId| #[trigger] later.balance(a) == if a == to {
            (self.balance(to) + value) as Balance
        } else if a == from {
            (self.balance(from) - value) as Balance
        } else {
            self.balance(a)
        }
    }

    fn transfer_from_to(&mut self, from: AccountId, to: AccountId, value: Balance) -> (r: bool)
        ensures
            r == old(self).can_move(from, to, value),
            final(self).supply() == old(self).supply(),
            forall|o: AccountId, s: AccountId| #[trigger] final(self).allowance_of(o, s)
                == old(self).allowance_of(o, s),
            r ==> old(self).moved(final(self), from, to, value),
            r ==> final(self).event_log() == old(self).event_log().push(
                Erc20Event::Transfer(Transfer { from: Some(from), to: Some(to), value }),
            ),
            !r ==> final(self).same_ledger(old(self)) && final(self).event_log() == old(self).event_log(),
    {
        let balance_of_from = self.balance_of_or_zero(&from);
        let balance_of_to = self.balance_of_or_zero(&to);
        if balance_of_from < value {
            return false;
        }
        if balance_of_to > u128::MAX - value {
            return false;
        }
        self.balances.insert(from, balance_of_from - value);
        self.balances.insert(to, balance_of_to + value);
        self.events.push(Erc20Event::Transfer(Transfer { from: Some(from), to: Some(to), value }));
        true
    }

    /// Moves `value` of `caller`'s tokens to `to`; false, changing nothing,
    /// when `caller` holds too little.
    pub fn transfer(&mut self, caller: AccountId, to: AccountId, value: Balance) -> (r: bool)
        ensures
            r == old(self).can_move(caller, to, value),
            final(self).supply() == old(self).supply(),
            forall|o: AccountId, s: AccountId| #[trigger] final(self).allowance_of(o, s)
                == old(self).allowance_of(o, s),
            r ==> old(self).moved(final(self), caller, to, value),
            r ==> final(self).event_log() == old(self).event_log().push(
                Erc20Event::Transfer(Transfer { from: Some(caller), to: Some(to), value }),
            ),
            !r ==> final(self).same_ledger(old(self)) && final(self).event_log() == old(self).event_log(),
    {
        self.transfer_from_to(caller, to, value)
    }

    /// Moves `value` of `from`'s tokens to `to` on behalf of `caller`, spending
    /// that much of `caller`'s allowance; false, changing nothing, when the
    /// allowance or the balance is too small.
    pub fn transfer_from(&mut self, caller: AccountId, from: AccountId, to: AccountId, value: Balance) -> (r: bool)
        ensures
            r == (old(self).allowance_of(from, caller) >= value && old(self).can_move(from, to, value)),
            final(self).supply() == old(self).supply(),
            r ==> old(self).moved(final(self), from, to, value),
            r ==> forall|o: AccountId, s: AccountId| #[trigger] final(self).allowance_of(o, s)
                == if o == from && s == caller {
                    (old(self).allowance_of(from, caller) - value) as Balance
                } else {
                    old(self).allowance_of(o, s)
                },
            r ==> final(self).event_log() == old(self).event_log().push(
                Erc20Event::Transfer(Transfer { from: Some(from), to: Some(to), value }),
            ),
            !r ==> final(self).same_ledger(old(self)) && final(self).event_log() == old(self).event_log(),
    {
        let allowance = self.allowance(from, caller);
        if allowance < value {
            return false;
        }
        let transferred = self.transfer_from_to(from, to, value);
        if !transferred {
            return false;
        }
        let ghost mid = *self;
        self.set_allowance(from, caller, allowance - value);
        assert forall|a: AccountId| #[trigger] self.balance(a) == mid.balance(a) by {}
        true
    }

    /// The events reported so far, oldest first.
    pub fn events(&self) -> (r: &Vec<Erc20Event>)
        ensures
            r@ == self.event_log(),
    {
        &self.events
    }
}

} // verus!
