//! A ledger and marketplace for uniquely identified collectibles ("kitties").
//!
//! Kitties are minted with increasing identifiers and pseudo-random DNA,
//! indexed by the account that minted them, and traded through listings
//! whose payment goes through an injected balance-transfer capability.
pub mod kitty;
pub mod seed;
pub mod types;
pub mod state;
pub mod pallet;
pub mod laws;
