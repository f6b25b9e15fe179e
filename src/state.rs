use vstd::prelude::*;
use crate::kitty::{Kitty, KittyIdType};
use crate::types::{AccountId, Balance, Dna, Error, Event, KittyOf, TransferError};

verus! {

/// The abstract state of the ledger: the counters, the kitty records, the
/// listings, and the ownership index.
pub struct LedgerState {
    /// The last identifier handed out (0 before the first mint).
    pub next_kitty_id: KittyIdType,
    /// The rolling nonce of the seed sequencer.
    pub nonce: u32,
    /// Kitty records by identifier.
    pub kitties: Map<KittyIdType, KittyOf>,
    /// Listed prices by kitty identifier.
    pub listings: Map<KittyIdType, Balance>,
    /// Ownership index entries by account.
    pub users: Map<AccountId, Seq<KittyIdType>>,
}

impl LedgerState {
    /// The state of a fresh ledger.
    pub open spec fn empty() -> LedgerState {
        LedgerState {
            next_kitty_id: 0,
            nonce: 0,
            kitties: Map::empty(),
            listings: Map::empty(),
            users: Map::empty(),
        }
    }

    /// Every record sits under its own identifier, which was handed out;
    /// only existing kitties are listed; the index names existing kitties.
    pub open spec fn wf(self) -> bool {
        &&& forall|id: KittyIdType| #[trigger]
            self.kitties.contains_key(id) ==> self.kitties[id].id == id && 1 <= id
                <= self.next_kitty_id
        &&& forall|id: KittyIdType| #[trigger]
            self.listings.contains_key(id) ==> self.kitties.contains_key(id)
        &&& forall|a: AccountId, i: int|
            #![trigger self.users[a][i]]
            self.users.contains_key(a) && 0 <= i < self.users[a].len()
                ==> self.kitties.contains_key(self.users[a][i])
    }

    /// The kitties that `a` has minted, in order.
    pub open spec fn owned(self, a: AccountId) -> Seq<KittyIdType> {
        if self.users.contains_key(a) {
            self.users[a]
        } else {
            Seq::empty()
        }
    }

    /// Whether `id` is currently for sale.
    pub open spec fn is_listed(self, id: KittyIdType) -> bool {
        self.listings.contains_key(id)
    }

    /// The state with the nonce advanced by one, wrapping.
    pub open spec fn with_nonce_advanced(self) -> LedgerState {
        LedgerState { nonce: if self.nonce == u32::MAX { 0 } else { (self.nonce + 1) as u32 }, ..self }
    }

    /// Allocating an identifier: the next one, unless the space is exhausted.
    pub open spec fn allocate_id(self) -> (LedgerState, Result<KittyIdType, Error>) {
        if self.next_kitty_id == u128::MAX {
            (self, Err(Error::IdSpaceExhausted))
        } else {
            let id = (self.next_kitty_id + 1) as KittyIdType;
            (LedgerState { next_kitty_id: id, ..self }, Ok(id))
        }
    }

    /// Minting a kitty with the given DNA for `owner`: a fresh identifier,
    /// a new record, and the identifier appended to the owner's index.
    pub open spec fn mint(self, owner: AccountId, dna: Dna) -> (LedgerState, Result<KittyOf, Error>) {
        if self.next_kitty_id == u128::MAX {
            (self, Err(Error::IdSpaceExhausted))
        } else {
            let id = (self.next_kitty_id + 1) as KittyIdType;
            let kitty = Kitty { id, owner_id: owner, dna };
            (
                LedgerState {
                    next_kitty_id: id,
                    kitties: self.kitties.insert(id, kitty),
                    users: self.users.insert(owner, self.owned(owner).push(id)),
                    ..self
                },
                Ok(kitty),
            )
        }
    }

    /// The create operation, given the DNA that the randomness draw gave:
    /// the draw advances the nonce, then the kitty is minted.
    pub open spec fn create(self, caller: AccountId, dna: Dna) -> (LedgerState, Result<Event, Error>) {
        if self.next_kitty_id == u128::MAX {
            (self, Err(Error::IdSpaceExhausted))
        } else {
            let (post, minted) = self.with_nonce_advanced().mint(caller, dna);
            (post, Ok(Event::KittyCreated(caller, minted.unwrap())))
        }
    }

    /// Putting a kitty up for sale.
    pub open spec fn list(self, caller: AccountId, id: KittyIdType, price: Balance) -> (LedgerState, Result<Event, Error>) {
        if self.listings.contains_key(id) {
            (self, Err(Error::AlreadyListed))
        } else if !self.kitties.contains_key(id) {
            (self, Err(Error::NotFound))
        } else if self.kitties[id].owner_id != caller {
            (self, Err(Error::NotOwner))
        } else {
            (
                LedgerState { listings: self.listings.insert(id, price), ..self },
                Ok(Event::KittyForSale(caller, self.kitties[id], price)),
            )
        }
    }

    /// Taking a kitty off the market.
    pub open spec fn cancel(self, caller: AccountId, id: KittyIdType) -> (LedgerState, Result<Event, Error>) {
        if !self.listings.contains_key(id) {
            (self, Err(Error::NotListed))
        } else if !self.kitties.contains_key(id) {
            (self, Err(Error::NotFound))
        } else if self.kitties[id].owner_id != caller {
            (self, Err(Error::NotOwner))
        } else {
            (
                LedgerState { listings: self.listings.remove(id), ..self },
                Ok(Event::CancelKittyForSale(caller, self.kitties[id])),
            )
        }
    }

    /// What a purchase needs before any payment: the seller and the price.
    pub open spec fn check_buy(self, caller: AccountId, id: KittyIdType) -> Result<(AccountId, Balance), Error> {
        if !self.listings.contains_key(id) {
            Err(Error::NotListed)
        } else if !self.kitties.contains_key(id) {
            Err(Error::NotFound)
        } else if self.kitties[id].owner_id == caller {
            Err(Error::OwnerCannotBuyOwn)
        } else {
            Ok((self.kitties[id].owner_id, self.listings[id]))
        }
    }

    /// A purchase, given what the payment from buyer to seller returned:
    /// on success the listing goes and the buyer becomes the owner.
    pub open spec fn buy(self, caller: AccountId, id: KittyIdType, paid: Result<(), TransferError>) -> (LedgerState, Result<Event, Error>) {
        match self.check_buy(caller, id) {
            Err(e) => (self, Err(e)),
            Ok((_, price)) => match paid {
                Err(e) => (self, Err(Error::TransferFailed(e))),
                Ok(_) => {
                    let kitty = Kitty { owner_id: caller, ..self.kitties[id] };
                    (
                        LedgerState {
                            listings: self.listings.remove(id),
                            kitties: self.kitties.insert(id, kitty),
                            ..self
                        },
                        Ok(Event::KittyWasBought(caller, kitty, price)),
                    )
                },
            },
        }
    }
}

} // verus!
