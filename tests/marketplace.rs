use std::cell::RefCell;
use std::collections::HashMap;

use pallet_kitties::kitty::{Kitty, User};
use pallet_kitties::pallet::Module;
use pallet_kitties::seed::encode_u32;
use pallet_kitties::types::{
    AccountId, Balance, Currency, Dna, Error, Event, ExistenceRequirement, RandomnessSource,
    TransferError,
};

/// DNA made from the subject: its bytes first, then a marker byte.
struct EchoRandomness;

impl RandomnessSource for EchoRandomness {
    // A spec function of the trait: it has no run-time use.
    fn random_of(&self, _subject: vstd::seq::Seq<u8>) -> Dna {
        unreachable!()
    }

    fn random(&self, subject: &[u8]) -> Dna {
        let mut dna = [0xaau8; 32];
        for (i, b) in subject.iter().enumerate() {
            dna[i] = *b;
        }
        dna
    }
}

/// A source that remembers every subject it was asked for.
struct RecordingRandomness {
    subjects: RefCell<Vec<Vec<u8>>>,
}

impl RandomnessSource for RecordingRandomness {
    // A spec function of the trait: it has no run-time use.
    fn random_of(&self, _subject: vstd::seq::Seq<u8>) -> Dna {
        unreachable!()
    }

    fn random(&self, subject: &[u8]) -> Dna {
        self.subjects.borrow_mut().push(subject.to_vec());
        [subject.len() as u8; 32]
    }
}

/// A balance ledger that keeps each account at or above a minimum under
/// `KeepAlive`.
struct Balances {
    free: HashMap<AccountId, Balance>,
    minimum: Balance,
    calls: usize,
}

impl Balances {
    fn new(minimum: Balance, initial: &[(AccountId, Balance)]) -> Balances {
        Balances { free: initial.iter().cloned().collect(), minimum, calls: 0 }
    }

    fn of(&self, a: AccountId) -> Balance {
        *self.free.get(&a).unwrap_or(&0)
    }
}

impl Currency for Balances {
    fn transferred(
        before: Self,
        after: Self,
        source: AccountId,
        dest: AccountId,
        value: Balance,
        _existence_requirement: ExistenceRequirement,
        result: Result<(), TransferError>,
    ) -> bool {
        match result {
            Err(_) => before.free == after.free,
            Ok(()) => {
                source == dest && before.free == after.free
                    || after.of(source) + value == before.of(source)
                        && after.of(dest) == before.of(dest) + value
            }
        }
    }

    fn transfer(
        &mut self,
        source: AccountId,
        dest: AccountId,
        value: Balance,
        existence_requirement: ExistenceRequirement,
    ) -> Result<(), TransferError> {
        self.calls += 1;
        let have = self.of(source);
        if have < value {
            return Err(TransferError::InsufficientBalance);
        }
        if existence_requirement == ExistenceRequirement::KeepAlive && have - value < self.minimum {
            return Err(TransferError::WouldKillAccount);
        }
        self.free.insert(source, have - value);
        let to = self.of(dest);
        self.free.insert(dest, to + value);
        Ok(())
    }
}

const A: AccountId = 1;
const B: AccountId = 2;
const C: AccountId = 3;

fn created(r: Result<Event, Error>) -> Kitty<AccountId, Dna> {
    match r {
        Ok(Event::KittyCreated(_, k)) => k,
        other => panic!("expected a creation, got {:?}", other),
    }
}

#[test]
fn kitty_new_and_set_owner() {
    let mut k = Kitty::new(5, 10u64, [1u8; 32]);
    assert_eq!(k.id, 5);
    assert_eq!(k.owner_id, 10);
    k.set_owner(11);
    assert_eq!(k.owner_id, 11);
    assert_eq!(k.id, 5);
    assert_eq!(k.dna, [1u8; 32]);
}

#[test]
fn user_index_appends_in_order() {
    let mut u = User::new();
    assert!(u.kitties.is_empty());
    u.add_kitty(3);
    u.add_kitty(1);
    assert_eq!(u.kitties, vec![3, 1]);
}

#[test]
fn nonce_encoding_is_little_endian() {
    assert_eq!(encode_u32(0x0102_0304), vec![4, 3, 2, 1]);
    assert_eq!(encode_u32(0), vec![0, 0, 0, 0]);
    assert_eq!(encode_u32(u32::MAX), vec![255, 255, 255, 255]);
}

#[test]
fn seed_is_old_nonce_and_nonce_advances() {
    let mut m = Module::new();
    assert_eq!(m.encode_and_update_seed(), vec![0, 0, 0, 0]);
    assert_eq!(m.nonce(), 1);
    assert_eq!(m.encode_and_update_seed(), vec![1, 0, 0, 0]);
    assert_eq!(m.nonce(), 2);
}

#[test]
fn nonce_wraps_silently() {
    let mut m = Module::with_counters(0, u32::MAX);
    assert_eq!(m.encode_and_update_seed(), vec![255, 255, 255, 255]);
    assert_eq!(m.nonce(), 0);
}

#[test]
fn kitty_ids_count_up_from_the_base() {
    let mut m = Module::new();
    assert_eq!(m.generate_kitty_id(), Ok(1));
    assert_eq!(m.generate_kitty_id(), Ok(2));
    assert_eq!(m.next_kitty_id(), 2);
}

#[test]
fn kitty_id_space_exhausted_does_not_wrap() {
    let mut m = Module::with_counters(u128::MAX, 0);
    assert_eq!(m.generate_kitty_id(), Err(Error::IdSpaceExhausted));
    assert_eq!(m.next_kitty_id(), u128::MAX);
}

#[test]
fn random_is_keyed_by_the_nonce() {
    let mut m = Module::with_counters(0, 0x0a0b0c0d);
    let dna = m.generate_random(&EchoRandomness);
    assert_eq!(&dna[..4], &[0x0d, 0x0c, 0x0b, 0x0a]);
    assert_eq!(dna[4], 0xaa);
    assert_eq!(m.nonce(), 0x0a0b0c0e);
}

#[test]
fn created_ids_are_increasing_and_distinct() {
    let mut m = Module::new();
    let ids: Vec<u128> = (0..5).map(|i| created(m.create_kitty(&EchoRandomness, i % 2)).id).collect();
    assert_eq!(ids, vec![1, 2, 3, 4, 5]);
    assert_eq!(m.next_kitty_id(), 5);
    assert_eq!(m.nonce(), 5);
}

#[test]
fn creator_owns_new_kitty_and_index_holds_it() {
    let mut m = Module::new();
    let r = m.create_kitty(&EchoRandomness, A);
    let k = created(r);
    assert_eq!(r, Ok(Event::KittyCreated(A, k)));
    assert_eq!(k.id, 1);
    assert_eq!(k.owner_id, A);
    assert_eq!(&k.dna[..4], &[0, 0, 0, 0]);
    assert_eq!(m.kitties(1), Some(k));
    assert_eq!(m.user_data(A).kitties, vec![1]);
    assert!(m.user_data(B).kitties.is_empty());
    let k2 = created(m.create_kitty(&EchoRandomness, A));
    assert_eq!(&k2.dna[..4], &[1, 0, 0, 0]);
    assert_eq!(m.user_data(A).kitties, vec![1, 2]);
}

#[test]
fn create_fails_when_ids_are_exhausted_and_draws_nothing() {
    let mut m = Module::with_counters(u128::MAX, 7);
    assert_eq!(m.create_kitty(&EchoRandomness, A), Err(Error::IdSpaceExhausted));
    assert_eq!(m.nonce(), 7);
    assert_eq!(m.kitties(u128::MAX), None);
    assert!(m.user_data(A).kitties.is_empty());
}

#[test]
fn create_at_the_last_id() {
    let mut m = Module::with_counters(u128::MAX - 1, 0);
    assert_eq!(created(m.create_kitty(&EchoRandomness, A)).id, u128::MAX);
    assert_eq!(m.create_kitty(&EchoRandomness, B), Err(Error::IdSpaceExhausted));
}

#[test]
fn list_then_cancel_keeps_owner_and_removes_listing() {
    let mut m = Module::new();
    let k = created(m.create_kitty(&EchoRandomness, A));
    assert_eq!(m.list_kitty_for_sale(A, 1, 100), Ok(Event::KittyForSale(A, k, 100)));
    assert_eq!(m.kitties_for_sale(1), Some(100));
    assert_eq!(m.cancel_kitty_for_sale(A, 1), Ok(Event::CancelKittyForSale(A, k)));
    assert_eq!(m.kitties_for_sale(1), None);
    assert_eq!(m.kitties(1).unwrap().owner_id, A);
}

#[test]
fn second_listing_fails_and_keeps_first_price() {
    let mut m = Module::new();
    created(m.create_kitty(&EchoRandomness, A));
    assert!(m.list_kitty_for_sale(A, 1, 100).is_ok());
    assert_eq!(m.list_kitty_for_sale(A, 1, 200), Err(Error::AlreadyListed));
    assert_eq!(m.list_kitty_for_sale(B, 1, 200), Err(Error::AlreadyListed));
    assert_eq!(m.kitties_for_sale(1), Some(100));
}

#[test]
fn list_errors() {
    let mut m = Module::new();
    assert_eq!(m.list_kitty_for_sale(A, 1, 10), Err(Error::NotFound));
    created(m.create_kitty(&EchoRandomness, A));
    assert_eq!(m.list_kitty_for_sale(B, 1, 10), Err(Error::NotOwner));
    assert_eq!(m.kitties_for_sale(1), None);
}

#[test]
fn zero_price_listing_is_allowed() {
    let mut m = Module::new();
    created(m.create_kitty(&EchoRandomness, A));
    assert!(m.list_kitty_for_sale(A, 1, 0).is_ok());
    assert_eq!(m.kitties_for_sale(1), Some(0));
}

#[test]
fn cancel_by_non_owner_fails() {
    let mut m = Module::new();
    created(m.create_kitty(&EchoRandomness, A));
    m.list_kitty_for_sale(A, 1, 10).unwrap();
    assert_eq!(m.cancel_kitty_for_sale(B, 1), Err(Error::NotOwner));
    assert_eq!(m.kitties_for_sale(1), Some(10));
}

#[test]
fn cancel_twice_fails_with_not_listed() {
    let mut m = Module::new();
    created(m.create_kitty(&EchoRandomness, A));
    assert_eq!(m.cancel_kitty_for_sale(A, 1), Err(Error::NotListed));
    m.list_kitty_for_sale(A, 1, 10).unwrap();
    assert!(m.cancel_kitty_for_sale(A, 1).is_ok());
    assert_eq!(m.cancel_kitty_for_sale(A, 1), Err(Error::NotListed));
    assert_eq!(m.kitties(1).unwrap().owner_id, A);
}

#[test]
fn owner_cannot_buy_own_listed_kitty() {
    let mut m = Module::new();
    created(m.create_kitty(&EchoRandomness, A));
    m.list_kitty_for_sale(A, 1, 10).unwrap();
    let mut bank = Balances::new(0, &[(A, 1000)]);
    assert_eq!(m.buy_kitty(&mut bank, A, 1), Err(Error::OwnerCannotBuyOwn));
    assert_eq!(bank.calls, 0);
    assert_eq!(bank.of(A), 1000);
    assert_eq!(m.kitties_for_sale(1), Some(10));
}

#[test]
fn owner_buying_unlisted_kitty_gets_not_listed() {
    let mut m = Module::new();
    created(m.create_kitty(&EchoRandomness, A));
    let mut bank = Balances::new(0, &[(A, 1000)]);
    assert_eq!(m.buy_kitty(&mut bank, A, 1), Err(Error::NotListed));
}

#[test]
fn buying_unlisted_kitty_leaves_balances() {
    let mut m = Module::new();
    created(m.create_kitty(&EchoRandomness, A));
    let mut bank = Balances::new(0, &[(A, 5), (B, 1000)]);
    assert_eq!(m.buy_kitty(&mut bank, B, 1), Err(Error::NotListed));
    assert_eq!(m.buy_kitty(&mut bank, B, 42), Err(Error::NotListed));
    assert_eq!(bank.calls, 0);
    assert_eq!(bank.of(A), 5);
    assert_eq!(bank.of(B), 1000);
    assert_eq!(m.kitties(1).unwrap().owner_id, A);
}

#[test]
fn buy_then_relist_then_failed_buy() {
    let mut m = Module::new();
    let mut bank = Balances::new(0, &[(A, 0), (B, 150)]);
    let k0 = created(m.create_kitty(&EchoRandomness, A));
    assert_eq!(k0.id, 1);
    m.list_kitty_for_sale(A, 1, 100).unwrap();

    let bought = m.buy_kitty(&mut bank, B, 1);
    let mut sold = k0;
    sold.owner_id = B;
    assert_eq!(bought, Ok(Event::KittyWasBought(B, sold, 100)));
    assert_eq!(bank.of(B), 50);
    assert_eq!(bank.of(A), 100);
    assert_eq!(m.kitties(1).unwrap().owner_id, B);
    assert_eq!(m.kitties_for_sale(1), None);

    m.list_kitty_for_sale(B, 1, 50).unwrap();
    bank.transfer(A, C, 70, ExistenceRequirement::AllowDeath).unwrap();
    assert_eq!(bank.of(A), 30);
    assert_eq!(
        m.buy_kitty(&mut bank, A, 1),
        Err(Error::TransferFailed(TransferError::InsufficientBalance))
    );
    assert_eq!(m.kitties(1).unwrap().owner_id, B);
    assert_eq!(m.kitties_for_sale(1), Some(50));
    assert_eq!(bank.of(A), 30);
    assert_eq!(bank.of(B), 50);
}

#[test]
fn buy_refused_below_minimum_balance() {
    let mut m = Module::new();
    let mut bank = Balances::new(10, &[(A, 0), (B, 105)]);
    created(m.create_kitty(&EchoRandomness, A));
    m.list_kitty_for_sale(A, 1, 100).unwrap();
    assert_eq!(
        m.buy_kitty(&mut bank, B, 1),
        Err(Error::TransferFailed(TransferError::WouldKillAccount))
    );
    assert_eq!(bank.of(B), 105);
    assert_eq!(m.kitties(1).unwrap().owner_id, A);
    assert_eq!(m.kitties_for_sale(1), Some(100));
}

#[test]
fn settle_buy_by_payment_outcome() {
    let mut m = Module::new();
    created(m.create_kitty(&EchoRandomness, A));
    assert_eq!(m.check_buy(B, 1), Err(Error::NotListed));
    m.list_kitty_for_sale(A, 1, 25).unwrap();
    assert_eq!(m.check_buy(B, 1), Ok((A, 25)));
    assert_eq!(m.check_buy(A, 1), Err(Error::OwnerCannotBuyOwn));
    assert_eq!(
        m.settle_buy(B, 1, Err(TransferError::Other)),
        Err(Error::TransferFailed(TransferError::Other))
    );
    assert_eq!(m.kitties_for_sale(1), Some(25));
    assert!(m.settle_buy(B, 1, Ok(())).is_ok());
    assert_eq!(m.kitties(1).unwrap().owner_id, B);
    assert_eq!(m.kitties_for_sale(1), None);
    assert_eq!(m.user_data(A).kitties, vec![1]);
}

#[test]
fn relist_after_buy_is_allowed() {
    let mut m = Module::new();
    let mut bank = Balances::new(0, &[(B, 10)]);
    created(m.create_kitty(&EchoRandomness, A));
    m.list_kitty_for_sale(A, 1, 10).unwrap();
    m.buy_kitty(&mut bank, B, 1).unwrap();
    assert_eq!(m.list_kitty_for_sale(A, 1, 5), Err(Error::NotOwner));
    assert!(m.list_kitty_for_sale(B, 1, 5).is_ok());
    assert_eq!(m.kitties_for_sale(1), Some(5));
}

#[test]
fn successive_draws_use_distinct_seeds() {
    let source = RecordingRandomness { subjects: RefCell::new(Vec::new()) };
    let mut m = Module::with_counters(0, u32::MAX - 1);
    for _ in 0..4 {
        m.generate_random(&source);
    }
    let subjects = source.subjects.borrow();
    assert_eq!(
        *subjects,
        vec![vec![254, 255, 255, 255], vec![255, 255, 255, 255], vec![0, 0, 0, 0], vec![1, 0, 0, 0]]
    );
    assert_eq!(m.nonce(), 2);
}
