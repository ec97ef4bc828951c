use vstd::prelude::*;
use std::collections::HashMap;
use crate::breeding::{combine_dna, combined};
use crate::counter::IdentityCounter;
use crate::entropy::{blake2_128_of, random_hash, seed_input};

verus! {

/// Index of a kitty.
pub type KittyIndex = u64;

/// Identity of an account, as the authentication layer resolves it.
pub type AccountId = u64;

/// An amount of the currency that kitties are traded for.
pub type Balance = u128;

/// A kitty: its immutable 16-byte genome.
#[derive(Clone, Copy, Debug, PartialEq, Eq)]
pub struct Kitty(pub [u8; 16]);

/// Why an operation on the registry failed; a failed operation changes nothing.
#[derive(Clone, Copy, Debug, PartialEq, Eq, Structural)]
pub enum Error {
    /// Every kitty index has been handed out.
    KittyCountOverflow,
    /// No kitty has the given index.
    KittyNotExist,
    /// The caller does not own the kitty.
    NotKittyOwner,
    /// Both parents of a breeding are the same kitty.
    SameParentIndex,
    /// The buyer already owns the kitty.
    SelfTrade,
    /// The payment for a trade did not go through.
    PaymentFailed,
}

/// What the registry reports after each successful operation.
#[derive(Clone, Copy, Debug, PartialEq, Eq, Structural)]
pub enum Event {
    /// `(owner, kitty)`: a new kitty was created.
    KittyCreated(AccountId, KittyIndex),
    /// `(from, to, kitty)`: a kitty changed owner.
    KittyTransferred(AccountId, AccountId, KittyIndex),
    /// `(owner, parent1, parent2, child)`: a kitty was bred from two others.
    KittyBreeded(AccountId, KittyIndex, KittyIndex, KittyIndex),
}

/// A payment that a trade asks the currency to make.
#[derive(Clone, Copy, Debug, PartialEq, Eq, Structural)]
pub struct Payment {
    pub from: AccountId,
    pub to: AccountId,
    pub amount: Balance,
}

/// The registry: the kitties, their owners, the index counter and the event log.
pub struct Pallet {
    kitties: HashMap<KittyIndex, Kitty>,
    owners: HashMap<KittyIndex, AccountId>,
    counter: IdentityCounter,
    events: Vec<Event>,
}

impl Pallet {
    /// The kitties, by index.
    pub closed spec fn kitties(&self) -> Map<KittyIndex, Kitty> {
        self.kitties@
    }

    /// The owner of each kitty.
    pub closed spec fn owners(&self) -> Map<KittyIndex, AccountId> {
        self.owners@
    }

    /// The index that the next created kitty gets.
    pub closed spec fn next_index(&self) -> KittyIndex {
        self.counter.next()
    }

    /// The events reported so far, oldest first.
    pub closed spec fn event_log(&self) -> Seq<Event> {
        self.events@
    }

    /// Every kitty has exactly one owner, every owner entry names a kitty, and
    /// every index in use lies below the counter.
    pub closed spec fn wf(&self) -> bool {
        &&& forall|id: KittyIndex| #[trigger]
            self.kitties@.contains_key(id) <==> self.owners@.contains_key(id)
        &&& forall|id: KittyIndex| #[trigger] self.kitties@.contains_key(id) ==> id < self.counter.next()
    }

    /// `later` still holds every kitty of `self`, with the same genome.
    pub open spec fn extends(&self, later: &Pallet) -> bool {
        forall|id: KittyIndex| #[trigger]
            self.kitties().contains_key(id) ==> later.kitties().contains_key(id)
                && later.kitties()[id] == self.kitties()[id]
    }

    /// `self` and `other` hold the same state.
    pub open spec fn same_state(&self, other: &Pallet) -> bool {
        &&& self.kitties() == other.kitties()
        &&& self.owners() == other.owners()
        &&& self.next_index() == other.next_index()
        &&& self.event_log() == other.event_log()
    }

    /// The genome of a kitty bred from `kitty1` and `kitty2` with the given entropy.
    pub open spec fn bred_dna(
        &self,
        kitty1: KittyIndex,
        kitty2: KittyIndex,
        seed: Seq<u8>,
        sender: AccountId,
        index: Option<u32>,
    ) -> Seq<u8> {
        combined(
            blake2_128_of(seed_input(seed, sender, index)),
            self.kitties()[kitty1].0@,
            self.kitties()[kitty2].0@,
        )
    }

    /// An empty registry.
    pub fn new() -> (r: Pallet)
        ensures
            r.wf(),
            r.kitties() == Map::<KittyIndex, Kitty>::empty(),
            r.owners() == Map::<KittyIndex, AccountId>::empty(),
            r.next_index() == 0,
            r.event_log() == Seq::<Event>::empty(),
    {
        Pallet {
            kitties: HashMap::new(),
            owners: HashMap::new(),
            counter: IdentityCounter::new(),
            events: Vec::new(),
        }
    }

    /// An empty registry whose first kitty gets the index `next_id`.
    pub fn with_next_index(next_id: KittyIndex) -> (r: Pallet)
        ensures
            r.wf(),
            r.kitties() == Map::<KittyIndex, Kitty>::empty(),
            r.owners() == Map::<KittyIndex, AccountId>::empty(),
            r.next_index() == next_id,
            r.event_log() == Seq::<Event>::empty(),
    {
        Pallet {
            kitties: HashMap::new(),
            owners: HashMap::new(),
            counter: IdentityCounter::starting_at(next_id),
            events: Vec::new(),
        }
    }

    /// Stores a new kitty with genome `dna`, owned by `owner`, under the next index.
    fn create(&mut self, owner: AccountId, dna: [u8; 16]) -> (r: Result<KittyIndex, Error>)
        requires
            old(self).wf(),
        ensures
            final(self).wf(),
            r is Ok <==> old(self).next_index() < u64::MAX,
            match r {
                Ok(id) => {
                    &&& id == old(self).next_index()
                    &&& !old(self).kitties().contains_key(id)
                    &&& final(self).kitties() == old(self).kitties().insert(id, Kitty(dna))
                    &&& final(self).owners() == old(self).owners().insert(id, owner)
                    &&& final(self).next_index() == id + 1
                    &&& final(self).event_log() == old(self).event_log()
                },
                Err(e) => e == Error::KittyCountOverflow && final(self).same_state(old(self)),
            },
    {
        let id = match self.counter.allocate() {
            Ok(id) => id,
            Err(e) => {
                return Err(e);
            },
        };
        self.kitties.insert(id, Kitty(dna));
        self.owners.insert(id, owner);
        Ok(id)
    }

    /// Creates a kitty for `sender`, its genome drawn from the random seed and
    /// the extrinsic index, and reports `KittyCreated`.
    pub fn create_kitty(&mut self, sender: AccountId, seed: [u8; 32], extrinsic_index: Option<u32>) -> (r: Result<KittyIndex, Error>)
        requires
            old(self).wf(),
        ensures
            final(self).wf(),
            old(self).extends(final(self)),
            r is Ok <==> old(self).next_index() < u64::MAX,
            match r {
                Ok(id) => {
                    &&& id == old(self).next_index()
                    &&& !old(self).kitties().contains_key(id)
                    &&& final(self).kitties().contains_key(id)
                    &&& final(self).kitties()[id].0@ == blake2_128_of(seed_input(seed@, sender, extrinsic_index))
                    &&& final(self).kitties() == old(self).kitties().insert(id, final(self).kitties()[id])
                    &&& final(self).owners() == old(self).owners().insert(id, sender)
                    &&& final(self).next_index() == id + 1
                    &&& final(self).event_log() == old(self).event_log().push(Event::KittyCreated(sender, id))
                },
                Err(e) => e == Error::KittyCountOverflow && final(self).same_state(old(self)),
            },
    {
        let dna = random_hash(&seed, sender, extrinsic_index);
        let r = self.create(sender, dna);
        if let Ok(id) = r {
            self.events.push(Event::KittyCreated(sender, id));
        }
        r
    }

    /// Hands kitty `kitty_id` from `sender` to `dest`; only its owner may do so.
    pub fn transfer_kitty(&mut self, sender: AccountId, dest: AccountId, kitty_id: KittyIndex) -> (r: Result<(), Error>)
        requires
            old(self).wf(),
        ensures
            final(self).wf(),
            old(self).extends(final(self)),
            !old(self).kitties().contains_key(kitty_id) ==> r == Err::<(), Error>(Error::KittyNotExist),
            old(self).kitties().contains_key(kitty_id) && old(self).owners()[kitty_id] != sender
                ==> r == Err::<(), Error>(Error::NotKittyOwner),
            old(self).kitties().contains_key(kitty_id) && old(self).owners()[kitty_id] == sender
                ==> r == Ok::<(), Error>(()),
            r is Err ==> final(self).same_state(old(self)),
            r is Ok ==> {
                &&& final(self).kitties() == old(self).kitties()
                &&& final(self).owners() == old(self).owners().insert(kitty_id, dest)
                &&& final(self).next_index() == old(self).next_index()
                &&& final(self).event_log() == old(self).event_log().push(
                    Event::KittyTransferred(sender, dest, kitty_id),
                )
            },
    {
        if !self.kitties.contains_key(&kitty_id) {
            return Err(Error::KittyNotExist);
        }
        match self.owners.get(&kitty_id) {
            Some(owner) => {
                if *owner != sender {
                    return Err(Error::NotKittyOwner);
                }
            },
            None => {
                return Err(Error::NotKittyOwner);
            },
        }
        self.owners.insert(kitty_id, dest);
        self.events.push(Event::KittyTransferred(sender, dest, kitty_id));
        Ok(())
    }

    /// The genome of a child of `kitty1` and `kitty2`, mixed under fresh entropy.
    pub fn generate_dna_from_2kitties(
        &self,
        sender: AccountId,
        kitty1: KittyIndex,
        kitty2: KittyIndex,
        seed: [u8; 32],
        extrinsic_index: Option<u32>,
    ) -> (r: Result<[u8; 16], Error>)
        ensures
            r is Ok <==> self.kitties().contains_key(kitty1) && self.kitties().contains_key(kitty2),
            match r {
                Ok(dna) => dna@ == self.bred_dna(kitty1, kitty2, seed@, sender, extrinsic_index),
                Err(e) => e == Error::KittyNotExist,
            },
    {
        let parent1 = match self.kitties.get(&kitty1) {
            Some(k) => *k,
            None => {
                return Err(Error::KittyNotExist);
            },
        };
        let parent2 = match self.kitties.get(&kitty2) {
            Some(k) => *k,
            None => {
                return Err(Error::KittyNotExist);
            },
        };
        let base = random_hash(&seed, sender, extrinsic_index);
        Ok(combine_dna(&base, &parent1.0, &parent2.0))
    }

    /// Creates a kitty for `sender` bred from two distinct existing kitties, and
    /// reports `KittyBreeded`. The caller need not own the parents.
    pub fn breed_kitty(
        &mut self,
        sender: AccountId,
        kitty1: KittyIndex,
        kitty2: KittyIndex,
        seed: [u8; 32],
        extrinsic_index: Option<u32>,
    ) -> (r: Result<KittyIndex, Error>)
        requires
            old(self).wf(),
        ensures
            final(self).wf(),
            old(self).extends(final(self)),
            !old(self).kitties().contains_key(kitty1) || !old(self).kitties().contains_key(kitty2)
                ==> r == Err::<KittyIndex, Error>(Error::KittyNotExist),
            old(self).kitties().contains_key(kitty1) && old(self).kitties().contains_key(kitty2)
                && kitty1 == kitty2 ==> r == Err::<KittyIndex, Error>(Error::SameParentIndex),
            old(self).kitties().contains_key(kitty1) && old(self).kitties().contains_key(kitty2)
                && kitty1 != kitty2 && old(self).next_index() == u64::MAX
                ==> r == Err::<KittyIndex, Error>(Error::KittyCountOverflow),
            r is Ok <==> old(self).kitties().contains_key(kitty1) && old(self).kitties().contains_key(kitty2)
                && kitty1 != kitty2 && old(self).next_index() < u64::MAX,
            r is Err ==> final(self).same_state(old(self)),
            match r {
                Ok(id) => {
                    &&& id == old(self).next_index()
                    &&& !old(self).kitties().contains_key(id)
                    &&& final(self).kitties().contains_key(id)
                    &&& final(self).kitties()[id].0@ == old(self).bred_dna(kitty1, kitty2, seed@, sender, extrinsic_index)
                    &&& final(self).kitties() == old(self).kitties().insert(id, final(self).kitties()[id])
                    &&& final(self).owners() == old(self).owners().insert(id, sender)
                    &&& final(self).next_index() == id + 1
                    &&& final(self).event_log() == old(self).event_log().push(
                        Event::KittyBreeded(sender, kitty1, kitty2, id),
                    )
                },
                Err(_) => true,
            },
    {
        if !self.kitties.contains_key(&kitty1) || !self.kitties.contains_key(&kitty2) {
            return Err(Error::KittyNotExist);
        }
        if kitty1 == kitty2 {
            return Err(Error::SameParentIndex);
        }
        let dna = match self.generate_dna_from_2kitties(sender, kitty1, kitty2, seed, extrinsic_index) {
            Ok(dna) => dna,
            Err(e) => {
                return Err(e);
            },
        };
        let r = self.create(sender, dna);
        if let Ok(id) = r {
            self.events.push(Event::KittyBreeded(sender, kitty1, kitty2, id));
        }
        r
    }

    /// The payment that `buyer` makes to the owner of `kitty_id`. Ownership
    /// does not change here: it stays with the seller until a transfer.
    pub fn buy_kitty(&self, buyer: AccountId, kitty_id: KittyIndex, kitty_price: Balance) -> (r: Result<Payment, Error>)
        ensures
            !self.owners().contains_key(kitty_id) ==> r == Err::<Payment, Error>(Error::KittyNotExist),
            self.owners().contains_key(kitty_id) && self.owners()[kitty_id] == buyer
                ==> r == Err::<Payment, Error>(Error::SelfTrade),
            self.owners().contains_key(kitty_id) && self.owners()[kitty_id] != buyer ==> r == Ok::<Payment, Error>(
                Payment { from: buyer, to: self.owners()[kitty_id], amount: kitty_price },
            ),
    {
        let owner = match self.owners.get(&kitty_id) {
            Some(o) => *o,
            None => {
                return Err(Error::KittyNotExist);
            },
        };
        if buyer == owner {
            return Err(Error::SelfTrade);
        }
        Ok(Payment { from: buyer, to: owner, amount: kitty_price })
    }

    /// The payment that `buyer` makes to `seller` for kitty `kitty_id`, which
    /// `seller` must own. Ownership does not change here: it stays with the
    /// seller until a transfer.
    pub fn sell_kitty(
        &self,
        seller: AccountId,
        buyer: AccountId,
        kitty_id: KittyIndex,
        kitty_price: Balance,
    ) -> (r: Result<Payment, Error>)
        ensures
            self.owners().contains_key(kitty_id) && self.owners()[kitty_id] == seller
                ==> r == Ok::<Payment, Error>(Payment { from: buyer, to: seller, amount: kitty_price }),
            !(self.owners().contains_key(kitty_id) && self.owners()[kitty_id] == seller)
                ==> r == Err::<Payment, Error>(Error::NotKittyOwner),
    {
        match self.owners.get(&kitty_id) {
            Some(o) => {
                if *o != seller {
                    return Err(Error::NotKittyOwner);
                }
            },
            None => {
                return Err(Error::NotKittyOwner);
            },
        }
        Ok(Payment { from: buyer, to: seller, amount: kitty_price })
    }

    /// The number of indices handed out so far, which is the index of the next kitty.
    pub fn kitties_count(&self) -> (r: KittyIndex)
        ensures
            r == self.next_index(),
    {
        self.counter.next_id()
    }

    /// The kitty with index `kitty_id`, if there is one.
    pub fn kitty(&self, kitty_id: KittyIndex) -> (r: Option<Kitty>)
        ensures
            r == if self.kitties().contains_key(kitty_id) {
                Some(self.kitties()[kitty_id])
            } else {
                None::<Kitty>
            },
    {
        match self.kitties.get(&kitty_id) {
            Some(k) => Some(*k),
            None => None,
        }
    }

    /// The owner of kitty `kitty_id`, if there is one.
    pub fn owner(&self, kitty_id: KittyIndex) -> (r: Option<AccountId>)
        ensures
            r == if self.owners().contains_key(kitty_id) {
                Some(self.owners()[kitty_id])
            } else {
                None::<AccountId>
            },
    {
        match self.owners.get(&kitty_id) {
            Some(o) => Some(*o),
            None => None,
        }
    }

    /// The events reported so far, oldest first.
    pub fn events(&self) -> (r: &Vec<Event>)
        ensures
            r@ == self.event_log(),
    {
        &self.events
    }
}

} // verus!

verus! {

/// The outcome of a trade once the currency has tried its payment.
pub fn complete_trade(paid: bool) -> (r: Result<(), Error>)
    ensures
        r == if paid { Ok::<(), Error>(()) } else { Err::<(), Error>(Error::PaymentFailed) },
{
    if paid {
        Ok(())
    } else {
        Err(Error::PaymentFailed)
    }
}

} // verus!

verus! {

/// Creates a kitty owned by `owner` and returns its index.
pub fn create_kitty(pallet: &mut Pallet, owner: AccountId, seed: [u8; 32]) -> (r: KittyIndex)
    requires
        old(pallet).wf(),
        old(pallet).next_index() < u64::MAX,
    ensures
        final(pallet).wf(),
        old(pallet).extends(final(pallet)),
        r == old(pallet).next_index(),
        !old(pallet).kitties().contains_key(r),
        final(pallet).kitties().contains_key(r),
        final(pallet).owners() == old(pallet).owners().insert(r, owner),
        final(pallet).next_index() == r + 1,
{
    let _ = pallet.create_kitty(owner, seed, None);
    pallet.kitties_count() - 1
}

/// In a well-formed registry a kitty exists exactly when it has an owner.
pub proof fn lemma_owner_iff_exists(p: &Pallet, id: KittyIndex)
    requires
        p.wf(),
    ensures
        p.kitties().contains_key(id) <==> p.owners().contains_key(id),
{
}

/// Along a run of operations, each of which keeps every kitty, every state
/// keeps the kitties of every earlier one.
pub proof fn lemma_extends_along_run(states: Seq<Pallet>, i: int, j: int)
    requires
        forall|k: int| 0 <= k < states.len() - 1 ==> #[trigger] states[k].extends(&states[k + 1]),
        0 <= i <= j < states.len(),
    ensures
        states[i].extends(&states[j]),
    decreases j - i,
{
    if i < j {
        lemma_extends_along_run(states, i, j - 1);
        let k = j - 1;
        assert(states[k].extends(&states[k + 1]));
        assert(k + 1 == j);
    }
}

/// A kitty's genome never changes: along a run of operations, each of which
/// keeps every kitty, a kitty present at step `i` has the same genome at every
/// later step `j`.
pub proof fn lemma_dna_write_once(states: Seq<Pallet>, i: int, j: int, id: KittyIndex)
    requires
        forall|k: int| 0 <= k < states.len() - 1 ==> #[trigger] states[k].extends(&states[k + 1]),
        0 <= i <= j < states.len(),
        states[i].kitties().contains_key(id),
    ensures
        states[j].kitties().contains_key(id),
        states[j].kitties()[id] == states[i].kitties()[id],
{
    lemma_extends_along_run(states, i, j);
}

/// Indices are never reused: along a run of operations, each of which keeps
/// every kitty, where step `k` creates `created[k]` (absent before the step,
/// present after it), all created indices differ.
pub proof fn lemma_created_indices_distinct(states: Seq<Pallet>, created: Seq<Option<KittyIndex>>)
    requires
        states.len() == created.len() + 1,
        forall|k: int| 0 <= k < states.len() - 1 ==> #[trigger] states[k].extends(&states[k + 1]),
        forall|k: int|
            0 <= k < created.len() && (#[trigger] created[k]) is Some ==> {
                &&& !states[k].kitties().contains_key(created[k]->0)
                &&& states[k + 1].kitties().contains_key(created[k]->0)
            },
    ensures
        forall|a: int, b: int|
            0 <= a < created.len() && 0 <= b < created.len() && a != b && created[a] is Some
                && created[b] is Some ==> #[trigger] created[a] != #[trigger] created[b],
{
    assert forall|a: int, b: int|
        0 <= a < created.len() && 0 <= b < created.len() && a != b && created[a] is Some
            && created[b] is Some implies #[trigger] created[a] != #[trigger] created[b] by {
        let (x, y) = if a < b { (a, b) } else { (b, a) };
        assert(created[x] is Some && created[y] is Some);
        lemma_extends_along_run(states, x + 1, y);
        assert(states[x + 1].kitties().contains_key(created[x]->0));
        assert(!states[y].kitties().contains_key(created[y]->0));
    }
}

} // verus!
