use vstd::prelude::*;
use crate::kitty::KittyIdType;
use crate::seed::le_bytes_u32;
use crate::state::LedgerState;
use crate::types::{AccountId, Balance, Dna, Error, Event, KittyOf, TransferError};

verus! {

/// Each successful creation raises the identifier counter by exactly one.
proof fn lemma_counter_grows(
    states: Seq<LedgerState>,
    callers: Seq<AccountId>,
    dnas: Seq<Dna>,
    kitties: Seq<KittyOf>,
    i: int,
    j: int,
)
    requires
        states.len() == callers.len() + 1,
        dnas.len() == callers.len(),
        kitties.len() == callers.len(),
        forall|k: int|
            0 <= k < callers.len() ==> #[trigger] states[k].create(callers[k], dnas[k]) == (
                states[k + 1],
                Ok::<Event, Error>(Event::KittyCreated(callers[k], kitties[k])),
            ),
        0 <= i <= j < states.len(),
    ensures
        states[i].next_kitty_id + (j - i) == states[j].next_kitty_id,
    decreases j - i,
{
    if i < j {
        lemma_counter_grows(states, callers, dnas, kitties, i, j - 1);
        let _ = states[j - 1].create(callers[j - 1], dnas[j - 1]);
    }
}

/// Over any sequence of successful creations, the identifiers handed out
/// strictly increase in call order, so no two are equal.
pub proof fn lemma_created_ids_increase(
    states: Seq<LedgerState>,
    callers: Seq<AccountId>,
    dnas: Seq<Dna>,
    kitties: Seq<KittyOf>,
)
    requires
        states.len() == callers.len() + 1,
        dnas.len() == callers.len(),
        kitties.len() == callers.len(),
        forall|k: int|
            0 <= k < callers.len() ==> #[trigger] states[k].create(callers[k], dnas[k]) == (
                states[k + 1],
                Ok::<Event, Error>(Event::KittyCreated(callers[k], kitties[k])),
            ),
    ensures
        forall|i: int, j: int|
            0 <= i < j < kitties.len() ==> kitties[i].id < kitties[j].id && kitties[i].id
                != kitties[j].id,
{
    assert forall|i: int, j: int| 0 <= i < j < kitties.len() implies kitties[i].id
        < kitties[j].id by {
        let _ = states[i].create(callers[i], dnas[i]);
        let _ = states[j].create(callers[j], dnas[j]);
        lemma_counter_grows(states, callers, dnas, kitties, i + 1, j);
    }
}

/// Successive successful allocations return the identifiers that follow
/// the starting counter, one by one: from a fresh ledger 1, 2, ..., n.
pub proof fn lemma_allocated_ids_count_up(states: Seq<LedgerState>, ids: Seq<KittyIdType>)
    requires
        states.len() == ids.len() + 1,
        forall|k: int|
            0 <= k < ids.len() ==> #[trigger] states[k].allocate_id() == (
                states[k + 1],
                Ok::<KittyIdType, Error>(ids[k]),
            ),
    ensures
        forall|k: int| 0 <= k < ids.len() ==> ids[k] == states[0].next_kitty_id + k + 1,
        states.last().next_kitty_id == states[0].next_kitty_id + ids.len(),
    decreases ids.len(),
{
    if ids.len() > 0 {
        let n = ids.len() - 1;
        lemma_allocated_ids_count_up(states.drop_last(), ids.drop_last());
        assert(states.drop_last().last() == states[n]);
        let _ = states[n].allocate_id();
        assert forall|k: int| 0 <= k < ids.len() implies ids[k] == states[0].next_kitty_id + k
            + 1 by {
            if k < n {
                assert(ids.drop_last()[k] == ids[k]);
            }
        }
    }
}

/// After a successful creation the caller owns the new kitty, and its
/// ownership index holds the new identifier.
pub proof fn lemma_creator_owns(s: LedgerState, caller: AccountId, dna: Dna)
    requires
        s.create(caller, dna).1 is Ok,
    ensures
        s.create(caller, dna).1 matches Ok(Event::KittyCreated(_, kitty)) ==> {
            let post = s.create(caller, dna).0;
            &&& post.kitties[kitty.id].owner_id == caller
            &&& post.owned(caller).contains(kitty.id)
        },
{
    let post = s.create(caller, dna).0;
    let id = (s.next_kitty_id + 1) as KittyIdType;
    assert(post.owned(caller)[post.owned(caller).len() - 1] == id);
}

/// Listing a kitty and then cancelling the listing, both by its owner,
/// succeeds, leaves every kitty record (so every owner) as it was, and
/// removes the listing.
pub proof fn lemma_list_then_cancel(s: LedgerState, caller: AccountId, id: KittyIdType, price: Balance)
    requires
        s.wf(),
        s.list(caller, id, price).1 is Ok,
    ensures
        ({
            let listed = s.list(caller, id, price).0;
            let (post, r) = listed.cancel(caller, id);
            &&& r is Ok
            &&& post.kitties == s.kitties
            &&& !post.listings.contains_key(id)
            &&& post == s
        }),
{
    let listed = s.list(caller, id, price).0;
    let post = listed.cancel(caller, id).0;
    assert(post.listings =~= s.listings);
}

/// A listed kitty cannot be listed again until the listing goes: the second
/// attempt fails with `AlreadyListed`, and the first price stays.
pub proof fn lemma_relist_refused(
    s: LedgerState,
    caller: AccountId,
    id: KittyIdType,
    price: Balance,
    caller2: AccountId,
    price2: Balance,
)
    requires
        s.list(caller, id, price).1 is Ok,
    ensures
        ({
            let listed = s.list(caller, id, price).0;
            &&& listed.list(caller2, id, price2) == (listed, Err::<Event, Error>(Error::AlreadyListed))
            &&& listed.listings[id] == price
        }),
{
}

/// The owner of a listed kitty cannot buy it, whatever the payment would
/// return: the purchase fails with `OwnerCannotBuyOwn` and changes nothing.
pub proof fn lemma_owner_cannot_buy(s: LedgerState, id: KittyIdType, paid: Result<(), TransferError>)
    requires
        s.wf(),
        s.is_listed(id),
    ensures
        s.buy(s.kitties[id].owner_id, id, paid) == (s, Err::<Event, Error>(Error::OwnerCannotBuyOwn)),
{
}

/// A purchase of a kitty that is not for sale fails with `NotListed` and
/// changes nothing, whatever the payment would return.
pub proof fn lemma_buy_unlisted(s: LedgerState, caller: AccountId, id: KittyIdType, paid: Result<(), TransferError>)
    requires
        !s.is_listed(id),
    ensures
        s.buy(caller, id, paid) == (s, Err::<Event, Error>(Error::NotListed)),
{
}

/// Cancelling is not tolerant of repetition: on a kitty that is not for
/// sale it fails with `NotListed` and changes nothing, and in particular a
/// second cancel right after a successful one fails so.
pub proof fn lemma_cancel_unlisted(s: LedgerState, caller: AccountId, id: KittyIdType)
    ensures
        !s.is_listed(id) ==> s.cancel(caller, id) == (s, Err::<Event, Error>(Error::NotListed)),
        s.cancel(caller, id).1 is Ok ==> ({
            let post = s.cancel(caller, id).0;
            post.cancel(caller, id) == (post, Err::<Event, Error>(Error::NotListed))
        }),
{
}

/// Distinct nonces encode to distinct seeds.
pub proof fn lemma_seed_encoding_injective(a: u32, b: u32)
    requires
        a != b,
    ensures
        le_bytes_u32(a) != le_bytes_u32(b),
{
    assert(a % 256 != b % 256 || (a / 256) % 256 != (b / 256) % 256 || (a / 65536) % 256 != (b
        / 65536) % 256 || a / 16777216 != b / 16777216) by (bit_vector)
        requires
            a != b,
    ;
    if le_bytes_u32(a) == le_bytes_u32(b) {
        assert(le_bytes_u32(a)[0] == le_bytes_u32(b)[0]);
        assert(le_bytes_u32(a)[1] == le_bytes_u32(b)[1]);
        assert(le_bytes_u32(a)[2] == le_bytes_u32(b)[2]);
        assert(le_bytes_u32(a)[3] == le_bytes_u32(b)[3]);
    }
}

/// Each draw advances the nonce by one, modulo 2^32.
proof fn lemma_nonce_steps(states: Seq<LedgerState>, i: int, j: int)
    requires
        forall|k: int|
            0 <= k < states.len() - 1 ==> states[k + 1] == #[trigger] states[k].with_nonce_advanced(),
        0 <= i <= j < states.len(),
    ensures
        states[j].nonce as int == (states[i].nonce + (j - i)) % 0x1_0000_0000,
    decreases j - i,
{
    if i < j {
        lemma_nonce_steps(states, i, j - 1);
        let _ = states[j - 1].with_nonce_advanced();
    }
}

/// Over up to 2^32 successive randomness draws, with no other change of
/// the nonce in between, the seeds handed to the source are pairwise
/// distinct.
pub proof fn lemma_successive_seeds_distinct(states: Seq<LedgerState>)
    requires
        states.len() <= 0x1_0000_0000,
        forall|k: int|
            0 <= k < states.len() - 1 ==> states[k + 1] == #[trigger] states[k].with_nonce_advanced(),
    ensures
        forall|i: int, j: int|
            0 <= i < j < states.len() ==> le_bytes_u32(states[i].nonce) != le_bytes_u32(
                states[j].nonce,
            ),
{
    assert forall|i: int, j: int| 0 <= i < j < states.len() implies le_bytes_u32(states[i].nonce)
        != le_bytes_u32(states[j].nonce) by {
        lemma_nonce_steps(states, i, j);
        assert(states[j].nonce != states[i].nonce);
        lemma_seed_encoding_injective(states[i].nonce, states[j].nonce);
    }
}

} // verus!
