use std::collections::HashMap;
use vstd::prelude::*;
use crate::kitty::{Kitty, KittyIdType, User};
use crate::seed::{encode_u32, le_bytes_u32};
use crate::state::LedgerState;
use crate::types::{
    AccountId, Balance, Currency, Dna, Error, Event, ExistenceRequirement, KittyOf,
    RandomnessSource, TransferError,
};

verus! {

broadcast use vstd::std_specs::hash::group_hash_axioms;

/// The ledger: counters, kitty records, listings and ownership index.
pub struct Module {
    next_kitty_id: KittyIdType,
    kitties: HashMap<KittyIdType, KittyOf>,
    kitties_for_sale: HashMap<KittyIdType, Balance>,
    users: HashMap<AccountId, User>,
    nonce: u32,
}

impl View for Module {
    type V = LedgerState;

    closed spec fn view(&self) -> LedgerState {
        LedgerState {
            next_kitty_id: self.next_kitty_id,
            nonce: self.nonce,
            kitties: self.kitties@,
            listings: self.kitties_for_sale@,
            users: Map::new(
                |a: AccountId| self.users@.contains_key(a),
                |a: AccountId| self.users@[a].kitties@,
            ),
        }
    }
}

impl Module {
    /// The invariant of the ledger, stated on its model.
    pub open spec fn wf(&self) -> bool {
        self@.wf()
    }

    /// A ledger with no kitties, no listings, and both counters at zero.
    pub fn new() -> (r: Module)
        ensures
            r@ == LedgerState::empty(),
            r.wf(),
    {
        Module::with_counters(0, 0)
    }

    /// An empty ledger whose counters start at the given values: the first
    /// kitty minted gets `next_kitty_id + 1`.
    pub fn with_counters(next_kitty_id: KittyIdType, nonce: u32) -> (r: Module)
        ensures
            r@ == (LedgerState { next_kitty_id, nonce, ..LedgerState::empty() }),
            r.wf(),
    {
        let r = Module {
            next_kitty_id,
            kitties: HashMap::new(),
            kitties_for_sale: HashMap::new(),
            users: HashMap::new(),
            nonce,
        };
        assert(r@.users =~= Map::empty());
        r
    }

    /// Returns the current nonce, encoded, as seed material and advances
    /// the nonce by one, wrapping on overflow.
    pub fn encode_and_update_seed(&mut self) -> (r: Vec<u8>)
        ensures
            r@ == le_bytes_u32(old(self)@.nonce),
            final(self)@ == old(self)@.with_nonce_advanced(),
    {
        let nonce = self.nonce;
        self.nonce = nonce.wrapping_add(1);
        encode_u32(nonce)
    }

    /// Hands out the next kitty identifier; fails, changing nothing, once
    /// the identifier space is exhausted.
    pub fn generate_kitty_id(&mut self) -> (r: Result<KittyIdType, Error>)
        ensures
            (final(self)@, r) == old(self)@.allocate_id(),
    {
        match self.next_kitty_id.checked_add(1) {
            Some(next_kitty_id) => {
                self.next_kitty_id = next_kitty_id;
                Ok(next_kitty_id)
            },
            None => Err(Error::IdSpaceExhausted),
        }
    }

    /// Draws DNA from the randomness source, keyed by the encoded current
    /// nonce, which then advances.
    pub fn generate_random<R: RandomnessSource>(&mut self, source: &R) -> (r: Dna)
        ensures
            r == source.random_of(le_bytes_u32(old(self)@.nonce)),
            final(self)@ == old(self)@.with_nonce_advanced(),
    {
        let subject = self.encode_and_update_seed();
        source.random(subject.as_slice())
    }

    /// Mints a kitty with the given DNA for `owner`: a fresh identifier, a
    /// new record, and the identifier appended to the owner's index.
    pub fn mint_kitty(&mut self, owner: AccountId, dna: Dna) -> (r: Result<KittyOf, Error>)
        requires
            old(self).wf(),
        ensures
            final(self).wf(),
            (final(self)@, r) == old(self)@.mint(owner, dna),
    {
        let kitty_id = match self.generate_kitty_id() {
            Ok(kitty_id) => kitty_id,
            Err(e) => return Err(e),
        };
        let kitty = Kitty::new(kitty_id, owner, dna);
        self.kitties.insert(kitty_id, kitty);
        let mut user = match self.users.remove(&owner) {
            Some(u) => u,
            None => User::new(),
        };
        assert(user.kitties@ =~= old(self)@.owned(owner));
        user.add_kitty(kitty_id);
        self.users.insert(owner, user);
        proof {
            let (post, _) = old(self)@.mint(owner, dna);
            assert(self@.users =~= post.users);
            assert(self@.kitties =~= post.kitties);
        }
        Ok(kitty)
    }

    /// Mints a kitty for `caller` with DNA drawn from `source`. The draw is
    /// made only once an identifier is known to be available, so a failure
    /// changes nothing.
    pub fn create_kitty<R: RandomnessSource>(&mut self, source: &R, caller: AccountId) -> (r: Result<Event, Error>)
        requires
            old(self).wf(),
        ensures
            final(self).wf(),
            old(self)@.next_kitty_id == u128::MAX ==> final(self)@ == old(self)@ && r == Err::<Event, Error>(Error::IdSpaceExhausted),
            old(self)@.next_kitty_id < u128::MAX ==> (final(self)@, r) == old(self)@.create(
                caller,
                source.random_of(le_bytes_u32(old(self)@.nonce)),
            ),
    {
        if self.next_kitty_id == u128::MAX {
            return Err(Error::IdSpaceExhausted);
        }
        let kitty_dna = self.generate_random(source);
        match self.mint_kitty(caller, kitty_dna) {
            Ok(kitty) => Ok(Event::KittyCreated(caller, kitty)),
            Err(e) => Err(e),
        }
    }

    /// Puts `caller`'s kitty `kitty_id` up for sale at `price`. Fails with
    /// `AlreadyListed` if it is for sale, `NotFound` if there is no such
    /// kitty, `NotOwner` if `caller` does not own it.
    pub fn list_kitty_for_sale(&mut self, caller: AccountId, kitty_id: KittyIdType, price: Balance) -> (r: Result<Event, Error>)
        requires
            old(self).wf(),
        ensures
            final(self).wf(),
            (final(self)@, r) == old(self)@.list(caller, kitty_id, price),
    {
        if self.kitties_for_sale.contains_key(&kitty_id) {
            return Err(Error::AlreadyListed);
        }
        let kitty = match self.kitties.get(&kitty_id) {
            Some(k) => *k,
            None => return Err(Error::NotFound),
        };
        if kitty.owner_id != caller {
            return Err(Error::NotOwner);
        }
        self.kitties_for_sale.insert(kitty_id, price);
        Ok(Event::KittyForSale(caller, kitty, price))
    }

    /// Takes `caller`'s kitty `kitty_id` off the market. Fails with
    /// `NotListed` if it is not for sale, `NotOwner` if `caller` does not
    /// own it now.
    pub fn cancel_kitty_for_sale(&mut self, caller: AccountId, kitty_id: KittyIdType) -> (r: Result<Event, Error>)
        requires
            old(self).wf(),
        ensures
            final(self).wf(),
            (final(self)@, r) == old(self)@.cancel(caller, kitty_id),
    {
        if !self.kitties_for_sale.contains_key(&kitty_id) {
            return Err(Error::NotListed);
        }
        let kitty = match self.kitties.get(&kitty_id) {
            Some(k) => *k,
            None => return Err(Error::NotFound),
        };
        if kitty.owner_id != caller {
            return Err(Error::NotOwner);
        }
        self.kitties_for_sale.remove(&kitty_id);
        Ok(Event::CancelKittyForSale(caller, kitty))
    }

    /// The seller and the price of a purchase of `kitty_id` by `caller`, or
    /// why it cannot go ahead: `NotListed`, or `OwnerCannotBuyOwn`.
    pub fn check_buy(&self, caller: AccountId, kitty_id: KittyIdType) -> (r: Result<(AccountId, Balance), Error>)
        ensures
            r == self@.check_buy(caller, kitty_id),
    {
        let price = match self.kitties_for_sale.get(&kitty_id) {
            Some(p) => *p,
            None => return Err(Error::NotListed),
        };
        let seller = match self.kitties.get(&kitty_id) {
            Some(k) => k.owner_id,
            None => return Err(Error::NotFound),
        };
        if seller == caller {
            return Err(Error::OwnerCannotBuyOwn);
        }
        Ok((seller, price))
    }

    /// Completes a purchase given what the payment returned: on success the
    /// listing is removed and `caller` becomes the owner; on a refused
    /// payment nothing changes.
    pub fn settle_buy(&mut self, caller: AccountId, kitty_id: KittyIdType, paid: Result<(), TransferError>) -> (r: Result<Event, Error>)
        requires
            old(self).wf(),
        ensures
            final(self).wf(),
            (final(self)@, r) == old(self)@.buy(caller, kitty_id, paid),
    {
        let price = match self.check_buy(caller, kitty_id) {
            Ok((_, price)) => price,
            Err(e) => return Err(e),
        };
        if let Err(e) = paid {
            return Err(Error::TransferFailed(e));
        }
        let mut kitty = match self.kitties.get(&kitty_id) {
            Some(k) => *k,
            None => return Err(Error::NotFound),
        };
        self.kitties_for_sale.remove(&kitty_id);
        kitty.set_owner(caller);
        self.kitties.insert(kitty_id, kitty);
        Ok(Event::KittyWasBought(caller, kitty, price))
    }

    /// `caller` buys the listed kitty `kitty_id`: the price is paid to the
    /// owner through `currency`, keeping the buyer's minimum balance, and
    /// only then is the listing removed and the owner changed. A purchase
    /// refused before payment leaves the balances untouched.
    pub fn buy_kitty<C: Currency>(&mut self, currency: &mut C, caller: AccountId, kitty_id: KittyIdType) -> (r: Result<Event, Error>)
        requires
            old(self).wf(),
        ensures
            final(self).wf(),
            old(self)@.check_buy(caller, kitty_id) is Err ==> (final(self)@, r) == old(self)@.buy(caller, kitty_id, Ok(()))
                && *final(currency) == *old(currency),
            old(self)@.check_buy(caller, kitty_id) matches Ok((seller, price)) ==> exists|
                paid: Result<(), TransferError>,
            |
                C::transferred(
                    *old(currency),
                    *final(currency),
                    caller,
                    seller,
                    price,
                    ExistenceRequirement::KeepAlive,
                    paid,
                ) && (final(self)@, r) == old(self)@.buy(caller, kitty_id, paid),
    {
        let (seller, price) = match self.check_buy(caller, kitty_id) {
            Ok(sale) => sale,
            Err(e) => return Err(e),
        };
        let paid = currency.transfer(caller, seller, price, ExistenceRequirement::KeepAlive);
        let r = self.settle_buy(caller, kitty_id, paid);
        assert(C::transferred(
            *old(currency),
            *currency,
            caller,
            seller,
            price,
            ExistenceRequirement::KeepAlive,
            paid,
        ) && (self@, r) == old(self)@.buy(caller, kitty_id, paid));
        r
    }

    /// The last identifier handed out (0 before the first mint).
    pub fn next_kitty_id(&self) -> (r: KittyIdType)
        ensures
            r == self@.next_kitty_id,
    {
        self.next_kitty_id
    }

    /// The current nonce of the seed sequencer.
    pub fn nonce(&self) -> (r: u32)
        ensures
            r == self@.nonce,
    {
        self.nonce
    }

    /// The record of kitty `kitty_id`, if there is one.
    pub fn kitties(&self, kitty_id: KittyIdType) -> (r: Option<KittyOf>)
        ensures
            r == (if self@.kitties.contains_key(kitty_id) {
                Some(self@.kitties[kitty_id])
            } else {
                None
            }),
    {
        match self.kitties.get(&kitty_id) {
            Some(k) => Some(*k),
            None => None,
        }
    }

    /// The price that kitty `kitty_id` is listed at, if it is for sale.
    pub fn kitties_for_sale(&self, kitty_id: KittyIdType) -> (r: Option<Balance>)
        ensures
            r == (if self@.listings.contains_key(kitty_id) {
                Some(self@.listings[kitty_id])
            } else {
                None
            }),
    {
        match self.kitties_for_sale.get(&kitty_id) {
            Some(p) => Some(*p),
            None => None,
        }
    }

    /// The ownership index entry of `account`: the kitties it has minted.
    pub fn user_data(&self, account: AccountId) -> (r: User)
        ensures
            r.kitties@ == self@.owned(account),
    {
        let mut r: Vec<KittyIdType> = Vec::new();
        match self.users.get(&account) {
            Some(user) => {
                let mut i: usize = 0;
                while i < user.kitties.len()
                    invariant
                        0 <= i <= user.kitties@.len(),
                        r@ == user.kitties@.subrange(0, i as int),
                    decreases user.kitties@.len() - i,
                {
                    r.push(user.kitties[i]);
                    i = i + 1;
                    assert(r@ =~= user.kitties@.subrange(0, i as int));
                }
                assert(r@ =~= user.kitties@);
            },
            None => {},
        }
        User { kitties: r }
    }
}

} // verus!
