use vstd::prelude::*;
use crate::kitty::Kitty;

verus! {

/// An account identifier, as authenticated by the host.
pub type AccountId = u64;

/// An amount of the fungible balance unit that listings are priced in.
pub type Balance = u128;

/// The fixed-width pseudo-random attribute value of a kitty.
pub type Dna = [u8; 32];

/// The kitty record kept by the ledger.
pub type KittyOf = Kitty<AccountId, Dna>;

/// How a balance transfer treats the paying account's minimum balance.
#[derive(Clone, Copy, PartialEq, Eq, Debug)]
pub enum ExistenceRequirement {
    /// The transfer fails rather than take the source below its minimum.
    KeepAlive,
    /// The source may be emptied and removed.
    AllowDeath,
}

/// Why a balance transfer was refused.
#[derive(Clone, Copy, PartialEq, Eq, Debug)]
pub enum TransferError {
    /// The source does not hold the amount.
    InsufficientBalance,
    /// The transfer would take the source below its minimum balance.
    WouldKillAccount,
    /// Any other refusal of the balance ledger.
    Other,
}

/// Why an operation of the ledger failed; a failed operation changes nothing.
#[derive(Clone, Copy, PartialEq, Eq, Debug)]
pub enum Error {
    /// No kitty has the identifier.
    NotFound,
    /// The kitty is already for sale.
    AlreadyListed,
    /// The kitty is not for sale.
    NotListed,
    /// The caller does not own the kitty.
    NotOwner,
    /// The buyer already owns the kitty.
    OwnerCannotBuyOwn,
    /// The payment was refused by the balance ledger.
    TransferFailed(TransferError),
    /// Every kitty identifier has been handed out.
    IdSpaceExhausted,
}

/// The record of a successful operation, for the host's event log.
#[derive(Clone, Copy, PartialEq, Eq, Debug)]
pub enum Event {
    /// An account minted a kitty.
    KittyCreated(AccountId, KittyOf),
    /// An account put its kitty up for sale at a price.
    KittyForSale(AccountId, KittyOf, Balance),
    /// An account took its kitty off the market.
    CancelKittyForSale(AccountId, KittyOf),
    /// An account bought a kitty (shown with its new owner) for a price.
    KittyWasBought(AccountId, KittyOf, Balance),
}

/// A source of randomness keyed by a subject, supplied by the host. It is
/// deterministic in the subject, and unpredictable to whoever picks the
/// subject before the call.
pub trait RandomnessSource {
    /// The value that this source gives for `subject`.
    spec fn random_of(&self, subject: Seq<u8>) -> Dna;

    /// The value for `subject`.
    fn random(&self, subject: &[u8]) -> (r: Dna)
        ensures
            r == self.random_of(subject@),
    ;
}

/// The fungible balance ledger, supplied by the host.
pub trait Currency: Sized {
    /// Whether `after` is the ledger `before` once a transfer of `value`
    /// from `source` to `dest` under `existence_requirement` has returned
    /// `result`.
    spec fn transferred(
        before: Self,
        after: Self,
        source: AccountId,
        dest: AccountId,
        value: Balance,
        existence_requirement: ExistenceRequirement,
        result: Result<(), TransferError>,
    ) -> bool;

    /// Moves `value` from `source` to `dest`, or refuses and moves nothing.
    fn transfer(
        &mut self,
        source: AccountId,
        dest: AccountId,
        value: Balance,
        existence_requirement: ExistenceRequirement,
    ) -> (r: Result<(), TransferError>)
        ensures
            Self::transferred(*old(self), *final(self), source, dest, value, existence_requirement, r),
    ;
}

} // verus!
