//! What holds of the kitties pallet across its calls.
use vstd::prelude::*;

use crate::kitties::{
    breed_outcome, buy_outcome, create_outcome, mixed_dna, sell_outcome, transfer_outcome,
    DispatchError, Event, KittiesState,
};

verus! {

/// A call that fails leaves the storage as it was: no kitty, owner, price,
/// count or event changes.
pub proof fn failed_calls_change_nothing(
    s: KittiesState,
    who: u64,
    reserved: bool,
    dna: Seq<u8>,
    kitty_id: u32,
    other_id: u32,
    new_owner: u64,
    price: Option<u128>,
    transferred: Result<(), DispatchError>,
)
    ensures
        create_outcome(s, who, reserved, dna).1 is Err ==> create_outcome(s, who, reserved, dna).0
            == s,
        breed_outcome(s, who, kitty_id, other_id, dna).1 is Err ==> breed_outcome(
            s,
            who,
            kitty_id,
            other_id,
            dna,
        ).0 == s,
        transfer_outcome(s, who, new_owner, kitty_id).1 is Err ==> transfer_outcome(
            s,
            who,
            new_owner,
            kitty_id,
        ).0 == s,
        sell_outcome(s, who, kitty_id, price).1 is Err ==> sell_outcome(s, who, kitty_id, price).0
            == s,
        buy_outcome(s, who, kitty_id, reserved, transferred).1 is Err ==> buy_outcome(
            s,
            who,
            kitty_id,
            reserved,
            transferred,
        ).0 == s,
{
}

/// Every call keeps the storage well formed, never changes nor drops a kitty
/// that exists, and only appends events.
pub proof fn calls_keep_storage_well_formed(
    s: KittiesState,
    who: u64,
    reserved: bool,
    dna: Seq<u8>,
    kitty_id: u32,
    other_id: u32,
    new_owner: u64,
    price: Option<u128>,
    transferred: Result<(), DispatchError>,
)
    requires
        s.wf(),
        dna.len() == 16,
    ensures
        create_outcome(s, who, reserved, dna).0.wf(),
        create_outcome(s, who, reserved, dna).0.extends(s),
        breed_outcome(s, who, kitty_id, other_id, dna).0.wf(),
        breed_outcome(s, who, kitty_id, other_id, dna).0.extends(s),
        transfer_outcome(s, who, new_owner, kitty_id).0.wf(),
        transfer_outcome(s, who, new_owner, kitty_id).0.extends(s),
        sell_outcome(s, who, kitty_id, price).0.wf(),
        sell_outcome(s, who, kitty_id, price).0.extends(s),
        buy_outcome(s, who, kitty_id, reserved, transferred).0.wf(),
        buy_outcome(s, who, kitty_id, reserved, transferred).0.extends(s),
{
    let c = create_outcome(s, who, reserved, dna).0;
    assert(c.kitties.subrange(0, s.kitties.len() as int) =~= s.kitties);
    assert(c.events.subrange(0, s.events.len() as int) =~= s.events);
    assert forall|i: int| 0 <= i < c.kitties.len() implies (#[trigger] c.kitties[i]).len() == 16 by {
        if i < s.kitties.len() {
            assert(c.kitties[i] == s.kitties[i]);
        }
    }
    let b = breed_outcome(s, who, kitty_id, other_id, dna).0;
    assert(b.kitties.subrange(0, s.kitties.len() as int) =~= s.kitties);
    assert(b.events.subrange(0, s.events.len() as int) =~= s.events);
    assert forall|i: int| 0 <= i < b.kitties.len() implies (#[trigger] b.kitties[i]).len() == 16 by {
        if i < s.kitties.len() {
            assert(b.kitties[i] == s.kitties[i]);
        }
    }
    let t = transfer_outcome(s, who, new_owner, kitty_id).0;
    assert(t.kitties.subrange(0, s.kitties.len() as int) =~= s.kitties);
    assert(t.events.subrange(0, s.events.len() as int) =~= s.events);
    let l = sell_outcome(s, who, kitty_id, price).0;
    assert(l.kitties.subrange(0, s.kitties.len() as int) =~= s.kitties);
    assert(l.events.subrange(0, s.events.len() as int) =~= s.events);
    let y = buy_outcome(s, who, kitty_id, reserved, transferred).0;
    assert(y.kitties.subrange(0, s.kitties.len() as int) =~= s.kitties);
    assert(y.events.subrange(0, s.events.len() as int) =~= s.events);
}

/// A created kitty gets the next index, belongs to its creator, carries the
/// DNA drawn for it, is not for sale, and `KittyCreate` is deposited.
pub proof fn create_gives_the_next_kitty_to_its_creator(
    s: KittiesState,
    who: u64,
    dna: Seq<u8>,
)
    requires
        s.wf(),
        create_outcome(s, who, true, dna).1 is Ok,
    ensures
        ({
            let id = s.kitties.len() as u32;
            let after = create_outcome(s, who, true, dna).0;
            &&& after.count == Some((id + 1) as u32)
            &&& after.owner_of(id) == Some(who)
            &&& after.kitty_of(id) == Some(dna)
            &&& after.price_of(id) is None
            &&& after.events == s.events.push(Event::KittyCreate(who, id))
            &&& forall|other: u32|
                other != id ==> after.owner_of(other) == s.owner_of(other) && after.price_of(other)
                    == s.price_of(other)
        }),
{
}

/// The index that the next kitty gets is unused: no kitty, owner or price is
/// stored there, it is the number of kitties, and the index after it still
/// fits in a `u32`.
pub proof fn next_kitty_index_is_unused(s: KittiesState)
    requires
        s.wf(),
    ensures
        s.next_kitty_id() matches Ok(id) ==> {
            &&& id == s.kitties.len()
            &&& id < u32::MAX
            &&& s.kitty_of(id) is None
            &&& s.owner_of(id) is None
            &&& s.price_of(id) is None
        },
{
}

/// Kitty indices run out only after `u32::MAX` kitties: creation with the
/// deposit reserved succeeds exactly while fewer exist.
pub proof fn create_succeeds_until_indices_run_out(s: KittiesState, who: u64, dna: Seq<u8>)
    requires
        s.wf(),
    ensures
        create_outcome(s, who, true, dna).1 is Ok <==> s.kitties.len() < u32::MAX,
        create_outcome(s, who, false, dna).1 is Err,
{
}

/// A bred kitty takes each bit from the first parent where the selector's bit
/// is set and from the second parent where it is clear.
pub proof fn breeding_mixes_parents_bit_by_bit(selector: Seq<u8>, dna1: Seq<u8>, dna2: Seq<u8>)
    requires
        selector.len() == 16,
        dna1.len() == 16,
        dna2.len() == 16,
    ensures
        forall|i: int|
            0 <= i < 16 ==> {
                let child = #[trigger] mixed_dna(selector, dna1, dna2)[i];
                &&& child & selector[i] == dna1[i] & selector[i]
                &&& child & !selector[i] == dna2[i] & !selector[i]
            },
{
    assert forall|i: int| 0 <= i < 16 implies {
        let child = #[trigger] mixed_dna(selector, dna1, dna2)[i];
        &&& child & selector[i] == dna1[i] & selector[i]
        &&& child & !selector[i] == dna2[i] & !selector[i]
    } by {
        let sel: u8 = selector[i];
        let a: u8 = dna1[i];
        let b: u8 = dna2[i];
        assert(((sel & a) | (!sel & b)) & sel == a & sel) by (bit_vector);
        assert(((sel & a) | (!sel & b)) & !sel == b & !sel) by (bit_vector);
    }
}

/// Only the owner can transfer a kitty; the kitty then belongs to the new
/// owner, keeps its price, and no other kitty changes hands. Transferring to
/// oneself is no error and changes no owner.
pub proof fn transfer_moves_only_that_kitty(
    s: KittiesState,
    who: u64,
    new_owner: u64,
    kitty_id: u32,
)
    requires
        s.wf(),
    ensures
        transfer_outcome(s, who, new_owner, kitty_id).1 is Ok <==> s.owner_of(kitty_id) == Some(
            who,
        ),
        transfer_outcome(s, who, new_owner, kitty_id).1 is Ok ==> {
            let after = transfer_outcome(s, who, new_owner, kitty_id).0;
            &&& after.owner_of(kitty_id) == Some(new_owner)
            &&& after.events == s.events.push(Event::KittyTransfer(who, new_owner, kitty_id))
            &&& after.on_sale == s.on_sale
            &&& after.kitties == s.kitties
            &&& forall|other: u32|
                other != kitty_id ==> after.owner_of(other) == s.owner_of(other)
        },
        s.owner_of(kitty_id) == Some(who) ==> transfer_outcome(s, who, who, kitty_id).0.owners
            == s.owners,
{
    if s.owner_of(kitty_id) == Some(who) {
        assert(transfer_outcome(s, who, who, kitty_id).0.owners =~= s.owners);
    }
}

/// A kitty that its owner put on sale at a price can be bought by anyone
/// (its owner too) whose payment goes through: the buyer then owns it, it is
/// off sale, and `KittyTransfer` then `Sold` are deposited.
pub proof fn sell_then_buy_hands_the_kitty_over(
    s: KittiesState,
    seller: u64,
    buyer: u64,
    kitty_id: u32,
    price: u128,
)
    requires
        s.wf(),
        s.owner_of(kitty_id) == Some(seller),
    ensures
        ({
            let listed = sell_outcome(s, seller, kitty_id, Some(price));
            let bought = buy_outcome(listed.0, buyer, kitty_id, true, Ok(()));
            &&& listed.1 is Ok
            &&& listed.0.price_of(kitty_id) == Some(price)
            &&& bought.1 is Ok
            &&& bought.0.owner_of(kitty_id) == Some(buyer)
            &&& bought.0.price_of(kitty_id) is None
            &&& bought.0.events == s.events.push(Event::OnSale(seller, kitty_id, Some(price))).push(
                Event::KittyTransfer(seller, buyer, kitty_id),
            ).push(Event::Sold(seller, buyer, kitty_id, price))
        }),
{
}

/// A kitty that is not on sale cannot be bought, whatever the currency does;
/// taking a kitty off sale (selling at `None`) makes it so.
pub proof fn unlisted_kitties_cannot_be_bought(
    s: KittiesState,
    seller: u64,
    buyer: u64,
    kitty_id: u32,
    reserved: bool,
    transferred: Result<(), DispatchError>,
)
    requires
        s.wf(),
    ensures
        s.price_of(kitty_id) is None ==> buy_outcome(s, buyer, kitty_id, reserved, transferred)
            == (s, Err::<(), DispatchError>(DispatchError::Module(crate::kitties::Error::NotForSale))),
        sell_outcome(s, seller, kitty_id, None).1 is Ok ==> sell_outcome(
            s,
            seller,
            kitty_id,
            None,
        ).0.price_of(kitty_id) is None,
{
}

/// Breeding succeeds exactly when the two parents are distinct existing
/// kitties and an index is left. The child then gets the next index, belongs
/// to the breeder, carries the parents' DNA mixed by the selector, is not for
/// sale, and no other kitty changes.
pub proof fn breeding_needs_two_existing_parents(
    s: KittiesState,
    who: u64,
    kitty_id1: u32,
    kitty_id2: u32,
    selector: Seq<u8>,
)
    requires
        s.wf(),
    ensures
        breed_outcome(s, who, kitty_id1, kitty_id2, selector).1 is Ok <==> {
            &&& kitty_id1 != kitty_id2
            &&& kitty_id1 < s.kitties.len()
            &&& kitty_id2 < s.kitties.len()
            &&& s.kitties.len() < u32::MAX
        },
        breed_outcome(s, who, kitty_id1, kitty_id2, selector).1 is Ok ==> {
            let id = s.kitties.len() as u32;
            let after = breed_outcome(s, who, kitty_id1, kitty_id2, selector).0;
            &&& after.kitties.len() == s.kitties.len() + 1
            &&& after.kitty_of(id) == Some(
                mixed_dna(selector, s.kitties[kitty_id1 as int], s.kitties[kitty_id2 as int]),
            )
            &&& after.owner_of(id) == Some(who)
            &&& after.price_of(id) is None
            &&& after.count == Some((id + 1) as u32)
            &&& after.events == s.events.push(Event::KittyCreate(who, id))
            &&& forall|other: u32|
                other != id ==> after.kitty_of(other) == s.kitty_of(other) && after.owner_of(other)
                    == s.owner_of(other) && after.price_of(other) == s.price_of(other)
        },
{
}

/// Only the owner of a kitty can set its price, whether or not it is on sale.
/// The kitty then has the given price; no other price and no owner changes.
pub proof fn only_the_owner_prices_a_kitty(
    s: KittiesState,
    who: u64,
    kitty_id: u32,
    price: Option<u128>,
)
    requires
        s.wf(),
    ensures
        sell_outcome(s, who, kitty_id, price).1 is Ok <==> s.owner_of(kitty_id) == Some(who),
        sell_outcome(s, who, kitty_id, price).1 is Ok ==> {
            let after = sell_outcome(s, who, kitty_id, price).0;
            &&& after.price_of(kitty_id) == price
            &&& after.events == s.events.push(Event::OnSale(who, kitty_id, price))
            &&& after.owners == s.owners
            &&& after.kitties == s.kitties
            &&& after.count == s.count
            &&& forall|other: u32| other != kitty_id ==> after.price_of(other) == s.price_of(other)
        },
{
}

/// A purchase succeeds exactly when the kitty is on sale, the price could be
/// reserved and the payment went through; a failed payment's error is the
/// call's error. The buyer then owns the kitty and it is off sale, while every
/// other kitty keeps its owner and its price.
pub proof fn buying_touches_only_the_bought_kitty(
    s: KittiesState,
    who: u64,
    kitty_id: u32,
    reserved: bool,
    transferred: Result<(), DispatchError>,
)
    requires
        s.wf(),
    ensures
        buy_outcome(s, who, kitty_id, reserved, transferred).1 is Ok <==> {
            &&& s.price_of(kitty_id) is Some
            &&& reserved
            &&& transferred is Ok
        },
        s.price_of(kitty_id) is Some && reserved ==> (transferred matches Err(e) ==> buy_outcome(
            s,
            who,
            kitty_id,
            reserved,
            transferred,
        ).1 == Err::<(), DispatchError>(e)),
        buy_outcome(s, who, kitty_id, reserved, transferred).1 is Ok ==> {
            let after = buy_outcome(s, who, kitty_id, reserved, transferred).0;
            &&& after.owner_of(kitty_id) == Some(who)
            &&& after.price_of(kitty_id) is None
            &&& after.events == s.events.push(
                Event::KittyTransfer(s.owners[kitty_id as int], who, kitty_id),
            ).push(Event::Sold(s.owners[kitty_id as int], who, kitty_id, s.on_sale[kitty_id as int]->0))
            &&& after.kitties == s.kitties
            &&& after.count == s.count
            &&& forall|other: u32|
                other != kitty_id ==> after.owner_of(other) == s.owner_of(other) && after.price_of(
                    other,
                ) == s.price_of(other)
        },
{
}

} // verus!
