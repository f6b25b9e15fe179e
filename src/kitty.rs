use vstd::prelude::*;

verus! {

/// Identifier of a kitty: assigned once, never reused.
pub type KittyIdType = u128;

/// A kitty record: its identifier, its current owner and its DNA.
#[derive(Clone, Copy, PartialEq, Eq, Debug)]
pub struct Kitty<AccountId, Hash> {
    pub id: KittyIdType,
    pub owner_id: AccountId,
    pub dna: Hash,
}

impl<AccountId, Hash> Kitty<AccountId, Hash> {
    /// A kitty with the given identifier, owner and DNA.
    pub fn new(id: KittyIdType, owner_id: AccountId, dna: Hash) -> (r: Kitty<AccountId, Hash>)
        ensures
            r.id == id,
            r.owner_id == owner_id,
            r.dna == dna,
    {
        Kitty { id, owner_id, dna }
    }

    /// Hands the kitty to a new owner; its identifier and DNA stay.
    pub fn set_owner(&mut self, owner_id: AccountId)
        ensures
            final(self).id == old(self).id,
            final(self).owner_id == owner_id,
            final(self).dna == old(self).dna,
    {
        self.owner_id = owner_id;
    }
}

/// The ownership index entry of an account: the kitties it has minted,
/// in the order of minting.
#[derive(Clone, Debug)]
pub struct User {
    pub kitties: Vec<KittyIdType>,
}

impl User {
    /// An account that has minted nothing yet.
    pub fn new() -> (r: User)
        ensures
            r.kitties@ == Seq::<KittyIdType>::empty(),
    {
        User { kitties: Vec::new() }
    }

    /// Appends a kitty to the index.
    pub fn add_kitty(&mut self, kitty_id: KittyIdType)
        ensures
            final(self).kitties@ == old(self).kitties@.push(kitty_id),
    {
        self.kitties.push(kitty_id);
    }
}

} // verus!
