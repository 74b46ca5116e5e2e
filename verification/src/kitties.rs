//! The kitties pallet: accounts create kitties, breed them, put them on sale
//! and buy them from each other.
//!
//! The pallet's storage is held by `Pallet`. What the runtime provides (the
//! currency that reserves and transfers balances, the randomness source and
//! the creation deposit) comes through the `Config` trait, which the runtime
//! implements.
use vstd::prelude::*;

use crate::hashing::{random_dna, random_value_from};
use crate::origin::{ensure_signed, signer_of, Origin};

verus! {

/// A kitty is its DNA.
#[derive(Clone, Copy, Debug, PartialEq, Eq)]
pub struct Kitty(pub [u8; 16]);

/// The errors of the kitties pallet.
#[derive(Clone, Copy, Debug, PartialEq, Eq)]
pub enum Error {
    /// No kitty index is left.
    KittiesCountOverflow,
    /// The caller does not own the kitty.
    NotOwner,
    /// A kitty cannot be bred with itself.
    SameParentIndex,
    /// No kitty has this index.
    InvalidKittyIndex,
    /// The balance cannot cover the deposit or the price.
    NoEnoughBalance,
    /// The kitty is not for sale.
    NotForSale,
}

/// Why a dispatched call failed.
#[derive(Clone, Copy, Debug, PartialEq, Eq)]
pub enum DispatchError {
    /// The call was not signed by an account.
    BadOrigin,
    /// An error of this pallet.
    Module(Error),
    /// An error that the currency reported, by its code.
    Currency(u32),
}

/// The events that the pallet deposits.
#[derive(Clone, Copy, Debug, PartialEq, Eq)]
pub enum Event {
    /// A kitty was created: (owner, kitty_id).
    KittyCreate(u64, u32),
    /// A kitty changed owner: (from, to, kitty_id).
    KittyTransfer(u64, u64, u32),
    /// A kitty's price was set: (owner, kitty_id, price), `None` taking it off sale.
    OnSale(u64, u32, Option<u128>),
    /// A kitty was sold: (from, to, kitty_id, price).
    Sold(u64, u64, u32, u128),
}

/// A call that the pallet made on the runtime's currency, with its answer.
#[derive(Clone, Copy, Debug, PartialEq, Eq)]
pub enum CurrencyCall {
    /// `reserve(who, amount)`, and whether it succeeded.
    Reserve(u64, u128, bool),
    /// `unreserve(who, amount)`.
    Unreserve(u64, u128),
    /// `transfer(source, dest, amount)`, keeping the source alive, and what it returned.
    Transfer(u64, u64, u128, Result<(), DispatchError>),
}

/// What the runtime provides to the pallet: its currency, its randomness and
/// the creation deposit. The runtime implements this trait; what the currency
/// answers is not promised. An implementation keeps, as a spec function, the
/// log of currency calls made on it, and answers the deposit, the seed and the
/// extrinsic index with the values its spec functions name.
///
/// An implementation that Verus checks overrides the spec functions below.
/// Their defaults only let implementations outside Verus (test runtimes),
/// which cannot give spec functions, compile; the pallet's proofs never
/// unfold them.
pub trait Config {
    /// The currency calls made so far, oldest first.
    closed spec fn currency_calls(&self) -> Seq<CurrencyCall> {
        Seq::empty()
    }

    /// The amount reserved from an account that creates a kitty.
    closed spec fn creation_deposit(&self) -> u128 {
        0
    }

    /// The hash of the current block's random seed.
    closed spec fn current_seed_hash(&self) -> Seq<u8> {
        Seq::empty()
    }

    /// The block that the current random seed is known since.
    closed spec fn current_seed_block(&self) -> u64 {
        0
    }

    /// The index of the extrinsic being executed.
    closed spec fn current_extrinsic_index(&self) -> Option<u32> {
        None
    }

    /// The amount reserved from an account that creates a kitty.
    fn money_for_create_kitty(&self) -> (amount: u128)
        ensures
            amount == self.creation_deposit(),
    ;

    /// Reserves `amount` of `who`'s balance.
    fn reserve(&mut self, who: u64, amount: u128) -> (r: Result<(), DispatchError>)
        ensures
            final(self).currency_calls() == old(self).currency_calls().push(
                CurrencyCall::Reserve(who, amount, r is Ok),
            ),
    ;

    /// Releases up to `amount` of `who`'s reserved balance; returns what could not be released.
    fn unreserve(&mut self, who: u64, amount: u128) -> (left: u128)
        ensures
            final(self).currency_calls() == old(self).currency_calls().push(
                CurrencyCall::Unreserve(who, amount),
            ),
    ;

    /// Transfers `amount` from `source` to `dest`, keeping `source` alive.
    fn transfer(&mut self, source: u64, dest: u64, amount: u128) -> (r: Result<(), DispatchError>)
        ensures
            final(self).currency_calls() == old(self).currency_calls().push(
                CurrencyCall::Transfer(source, dest, amount, r),
            ),
    ;

    /// The random seed of the current block: a hash and the block it is known since.
    fn random_seed(&self) -> (seed: ([u8; 32], u64))
        ensures
            seed.0@ == self.current_seed_hash(),
            seed.1 == self.current_seed_block(),
    ;

    /// The index of the extrinsic being executed in its block.
    fn extrinsic_index(&self) -> (index: Option<u32>)
        ensures
            index == self.current_extrinsic_index(),
    ;
}

/// The random value that `env` gives for `sender`: Blake2-128 of the SCALE
/// encoding of its current seed, the sender and its extrinsic index.
pub open spec fn drawn_dna<T: Config>(env: T, sender: u64) -> Seq<u8> {
    random_dna(env.current_seed_hash(), env.current_seed_block(), sender, env.current_extrinsic_index())
}

/// The pallet's storage, as plain values. Kitty `i` is the `i`-th element of
/// `kitties`, `owners` and `on_sale`; the storage maps of the runtime hold
/// exactly these indices, since kitties are numbered in the order of creation.
#[verifier::ext_equal]
pub struct KittiesState {
    /// `KittiesCount`: the next kitty index, `None` before the first kitty.
    pub count: Option<u32>,
    /// `Kitties`: the DNA of each kitty.
    pub kitties: Seq<Seq<u8>>,
    /// `Owner`: the owner of each kitty.
    pub owners: Seq<u64>,
    /// `OnSale`: the price of each kitty, `None` where it is not for sale.
    pub on_sale: Seq<Option<u128>>,
    /// The events deposited so far.
    pub events: Seq<Event>,
}

impl KittiesState {
    /// The storage before any call.
    pub open spec fn genesis() -> KittiesState {
        KittiesState {
            count: None,
            kitties: Seq::empty(),
            owners: Seq::empty(),
            on_sale: Seq::empty(),
            events: Seq::empty(),
        }
    }

    /// The invariant of the storage: one entry per kitty in each map, and the
    /// count is the number of kitties, absent before the first one.
    pub open spec fn wf(self) -> bool {
        &&& self.owners.len() == self.kitties.len()
        &&& self.on_sale.len() == self.kitties.len()
        &&& self.kitties.len() <= u32::MAX
        &&& self.count == (if self.kitties.len() == 0 {
            None
        } else {
            Some(self.kitties.len() as u32)
        })
        &&& forall|i: int| 0 <= i < self.kitties.len() ==> (#[trigger] self.kitties[i]).len() == 16
    }

    /// `Kitties::get(id)`.
    pub open spec fn kitty_of(self, id: u32) -> Option<Seq<u8>> {
        if id < self.kitties.len() {
            Some(self.kitties[id as int])
        } else {
            None
        }
    }

    /// `Owner::get(id)`.
    pub open spec fn owner_of(self, id: u32) -> Option<u64> {
        if id < self.owners.len() {
            Some(self.owners[id as int])
        } else {
            None
        }
    }

    /// `OnSale::get(id)`.
    pub open spec fn price_of(self, id: u32) -> Option<u128> {
        if id < self.on_sale.len() {
            self.on_sale[id as int]
        } else {
            None
        }
    }

    /// The index that the next kitty gets, or the error when none is left.
    pub open spec fn next_kitty_id(self) -> Result<u32, Error> {
        match self.count {
            None => Ok(0),
            Some(id) => if id == u32::MAX {
                Err(Error::KittiesCountOverflow)
            } else {
                Ok(id)
            },
        }
    }

    /// The storage after kitty `id` (the next index) is created for `owner` with `dna`.
    pub open spec fn with_created(self, owner: u64, id: u32, dna: Seq<u8>) -> KittiesState {
        KittiesState {
            count: Some((id + 1) as u32),
            kitties: self.kitties.push(dna),
            owners: self.owners.push(owner),
            on_sale: self.on_sale.push(None),
            events: self.events.push(Event::KittyCreate(owner, id)),
        }
    }

    /// The storage after kitty `id` passes from `from` to `to`.
    pub open spec fn with_transferred(self, from: u64, to: u64, id: u32) -> KittiesState {
        KittiesState {
            owners: self.owners.update(id as int, to),
            events: self.events.push(Event::KittyTransfer(from, to, id)),
            ..self
        }
    }

    /// Whether `self` differs from `old` only by new kitties and new events
    /// appended after the old ones: kitties are never lost nor changed.
    pub open spec fn extends(self, old: KittiesState) -> bool {
        &&& old.kitties.len() <= self.kitties.len()
        &&& self.kitties.subrange(0, old.kitties.len() as int) == old.kitties
        &&& old.events.len() <= self.events.len()
        &&& self.events.subrange(0, old.events.len() as int) == old.events
    }
}

/// The DNA bred from two parents: each bit comes from the first parent where
/// the selector's bit is set, and from the second where it is clear.
pub open spec fn mixed_dna(selector: Seq<u8>, dna1: Seq<u8>, dna2: Seq<u8>) -> Seq<u8> {
    Seq::new(16, |i: int| (selector[i] & dna1[i]) | (!selector[i] & dna2[i]))
}

/// What `create` does once `who` is known to have signed: `reserved` is whether
/// the creation deposit could be reserved, `dna` the random DNA drawn.
pub open spec fn create_outcome(s: KittiesState, who: u64, reserved: bool, dna: Seq<u8>) -> (
    KittiesState,
    Result<(), DispatchError>,
) {
    if !reserved {
        (s, Err(DispatchError::Module(Error::NoEnoughBalance)))
    } else {
        match s.next_kitty_id() {
            Err(e) => (s, Err(DispatchError::Module(e))),
            Ok(id) => (s.with_created(who, id, dna), Ok(())),
        }
    }
}

/// What `breed` does once `who` is known to have signed, `selector` being the
/// random value drawn.
pub open spec fn breed_outcome(
    s: KittiesState,
    who: u64,
    kitty_id1: u32,
    kitty_id2: u32,
    selector: Seq<u8>,
) -> (KittiesState, Result<(), DispatchError>) {
    if kitty_id1 == kitty_id2 {
        (s, Err(DispatchError::Module(Error::SameParentIndex)))
    } else {
        match (s.kitty_of(kitty_id1), s.kitty_of(kitty_id2)) {
            (Some(dna1), Some(dna2)) => match s.next_kitty_id() {
                Err(e) => (s, Err(DispatchError::Module(e))),
                Ok(id) => (s.with_created(who, id, mixed_dna(selector, dna1, dna2)), Ok(())),
            },
            _ => (s, Err(DispatchError::Module(Error::InvalidKittyIndex))),
        }
    }
}

/// What `transfer` does once `who` is known to have signed.
pub open spec fn transfer_outcome(s: KittiesState, who: u64, new_owner: u64, kitty_id: u32) -> (
    KittiesState,
    Result<(), DispatchError>,
) {
    if s.owner_of(kitty_id) == Some(who) {
        (s.with_transferred(who, new_owner, kitty_id), Ok(()))
    } else {
        (s, Err(DispatchError::Module(Error::NotOwner)))
    }
}

/// What `sell` does once `who` is known to have signed.
pub open spec fn sell_outcome(s: KittiesState, who: u64, kitty_id: u32, price: Option<u128>) -> (
    KittiesState,
    Result<(), DispatchError>,
) {
    if s.owner_of(kitty_id) == Some(who) {
        (
            KittiesState {
                on_sale: s.on_sale.update(kitty_id as int, price),
                events: s.events.push(Event::OnSale(who, kitty_id, price)),
                ..s
            },
            Ok(()),
        )
    } else {
        (s, Err(DispatchError::Module(Error::NotOwner)))
    }
}

/// What `buy` does once `who` is known to have signed: `reserved` is whether
/// the price could be reserved from the buyer, `transferred` what the transfer
/// of the price to the owner returned.
pub open spec fn buy_outcome(
    s: KittiesState,
    who: u64,
    kitty_id: u32,
    reserved: bool,
    transferred: Result<(), DispatchError>,
) -> (KittiesState, Result<(), DispatchError>) {
    match s.price_of(kitty_id) {
        None => (s, Err(DispatchError::Module(Error::NotForSale))),
        Some(price) => if !reserved {
            (s, Err(DispatchError::Module(Error::NoEnoughBalance)))
        } else {
            match transferred {
                Err(e) => (s, Err(e)),
                Ok(_) => {
                    let owner = s.owners[kitty_id as int];
                    let unlisted = KittiesState {
                        on_sale: s.on_sale.update(kitty_id as int, None),
                        ..s
                    };
                    let moved = unlisted.with_transferred(owner, who, kitty_id);
                    (
                        KittiesState {
                            events: moved.events.push(Event::Sold(owner, who, kitty_id, price)),
                            ..moved
                        },
                        Ok(()),
                    )
                },
            }
        },
    }
}

/// The storage of the kitties pallet.
#[derive(Clone, Debug, PartialEq)]
pub struct Pallet {
    kitties_count: Option<u32>,
    kitties: Vec<Kitty>,
    owner: Vec<u64>,
    on_sale: Vec<Option<u128>>,
    events: Vec<Event>,
}

impl View for Pallet {
    type V = KittiesState;

    closed spec fn view(&self) -> KittiesState {
        KittiesState {
            count: self.kitties_count,
            kitties: self.kitties@.map_values(|k: Kitty| k.0@),
            owners: self.owner@,
            on_sale: self.on_sale@,
            events: self.events@,
        }
    }
}

/// The random value that the pallet draws for `sender`: Blake2-128 of the SCALE
/// encoding of the block's random seed, the sender and the extrinsic index.
fn random_value<T: Config>(env: &T, sender: u64) -> (value: [u8; 16])
    ensures
        value@ == drawn_dna(*env, sender),
{
    let seed = env.random_seed();
    let index = env.extrinsic_index();
    random_value_from(seed, sender, index)
}

impl Pallet {
    /// The storage before any call.
    pub fn new() -> (pallet: Pallet)
        ensures
            pallet@ == KittiesState::genesis(),
            pallet@.wf(),
    {
        let pallet = Pallet {
            kitties_count: None,
            kitties: Vec::new(),
            owner: Vec::new(),
            on_sale: Vec::new(),
            events: Vec::new(),
        };
        assert(pallet@ =~= KittiesState::genesis());
        pallet
    }

    /// `KittiesCount::get()`.
    pub fn kitties_count(&self) -> (count: Option<u32>)
        ensures
            count == self@.count,
    {
        self.kitties_count
    }

    /// `Kitties::get(kitty_id)`.
    pub fn kitties(&self, kitty_id: u32) -> (kitty: Option<Kitty>)
        requires
            self@.wf(),
        ensures
            match kitty {
                Some(k) => self@.kitty_of(kitty_id) == Some(k.0@),
                None => self@.kitty_of(kitty_id) is None,
            },
    {
        if (kitty_id as usize) < self.kitties.len() {
            Some(self.kitties[kitty_id as usize])
        } else {
            None
        }
    }

    /// `Owner::get(kitty_id)`.
    pub fn owner(&self, kitty_id: u32) -> (owner: Option<u64>)
        requires
            self@.wf(),
        ensures
            owner == self@.owner_of(kitty_id),
    {
        if (kitty_id as usize) < self.owner.len() {
            Some(self.owner[kitty_id as usize])
        } else {
            None
        }
    }

    /// `OnSale::get(kitty_id)`.
    pub fn on_sale(&self, kitty_id: u32) -> (price: Option<u128>)
        requires
            self@.wf(),
        ensures
            price == self@.price_of(kitty_id),
    {
        if (kitty_id as usize) < self.on_sale.len() {
            self.on_sale[kitty_id as usize]
        } else {
            None
        }
    }

    /// The events deposited so far, oldest first.
    pub fn events(&self) -> (events: &Vec<Event>)
        ensures
            events@ == self@.events,
    {
        &self.events
    }

    /// The index that the next kitty gets.
    fn new_ketty_id(&self) -> (id: Result<u32, Error>)
        requires
            self@.wf(),
        ensures
            id == self@.next_kitty_id(),
    {
        match self.kitties_count {
            Some(id) => {
                if id == u32::MAX {
                    return Err(Error::KittiesCountOverflow);
                }
                Ok(id)
            },
            None => Ok(0),
        }
    }

    /// Stores kitty `kitty_id` for `owner` and deposits `KittyCreate`.
    fn created(&mut self, owner: u64, kitty_id: u32, kitty: Kitty)
        requires
            old(self)@.wf(),
            old(self)@.next_kitty_id() == Ok::<u32, Error>(kitty_id),
        ensures
            final(self)@ == old(self)@.with_created(owner, kitty_id, kitty.0@),
            final(self)@.wf(),
    {
        let ghost before = self@;
        self.kitties.push(kitty);
        self.owner.push(owner);
        self.on_sale.push(None);
        self.kitties_count = Some(kitty_id + 1);
        self.events.push(Event::KittyCreate(owner, kitty_id));
        assert(self@.kitties =~= before.kitties.push(kitty.0@));
        assert(self@ =~= before.with_created(owner, kitty_id, kitty.0@));
    }

    /// Gives kitty `kitty_id` to `new_owner` and deposits `KittyTransfer`.
    fn transferred(&mut self, old_owner: u64, new_owner: u64, kitty_id: u32)
        requires
            old(self)@.wf(),
            kitty_id < old(self)@.kitties.len(),
        ensures
            final(self)@ == old(self)@.with_transferred(old_owner, new_owner, kitty_id),
            final(self)@.wf(),
    {
        let ghost before = self@;
        self.owner.set(kitty_id as usize, new_owner);
        self.events.push(Event::KittyTransfer(old_owner, new_owner, kitty_id));
        assert(self@ =~= before.with_transferred(old_owner, new_owner, kitty_id));
    }

    /// Creates a kitty for `who`, given whether the creation deposit could be
    /// reserved and the DNA drawn for it.
    pub fn create_with(&mut self, who: u64, reserved: bool, dna: [u8; 16]) -> (r: Result<
        (),
        DispatchError,
    >)
        requires
            old(self)@.wf(),
        ensures
            final(self)@ == create_outcome(old(self)@, who, reserved, dna@).0,
            r == create_outcome(old(self)@, who, reserved, dna@).1,
            final(self)@.wf(),
    {
        if !reserved {
            return Err(DispatchError::Module(Error::NoEnoughBalance));
        }
        let kitty_id = match self.new_ketty_id() {
            Ok(id) => id,
            Err(e) => return Err(DispatchError::Module(e)),
        };
        self.created(who, kitty_id, Kitty(dna));
        Ok(())
    }

    /// `create`: the signer reserves the creation deposit and gets a new kitty
    /// with random DNA. The deposit stays reserved when the call then fails.
    pub fn create<T: Config>(&mut self, env: &mut T, origin: Origin) -> (r: Result<
        (),
        DispatchError,
    >)
        requires
            old(self)@.wf(),
        ensures
            final(self)@.wf(),
            signer_of(origin) is None ==> r == Err::<(), DispatchError>(DispatchError::BadOrigin)
                && final(self)@ == old(self)@ && final(env).currency_calls() == old(
                env,
            ).currency_calls(),
            forall|who: u64|
                signer_of(origin) == Some(who) ==> {
                    exists|reserved: bool|
                        #![trigger create_outcome(old(self)@, who, reserved, drawn_dna(*final(env), who))]
                        {
                            let outcome = create_outcome(
                                old(self)@,
                                who,
                                reserved,
                                drawn_dna(*final(env), who),
                            );
                            &&& final(env).currency_calls() == old(env).currency_calls().push(
                                CurrencyCall::Reserve(who, old(env).creation_deposit(), reserved),
                            )
                            &&& final(self)@ == outcome.0
                            &&& r == outcome.1
                        }
                },
    {
        let who = match ensure_signed(origin) {
            Ok(who) => who,
            Err(_) => return Err(DispatchError::BadOrigin),
        };
        let amount = env.money_for_create_kitty();
        let reserved = match env.reserve(who, amount) {
            Ok(()) => true,
            Err(_) => false,
        };
        let dna = random_value(env, who);
        let ghost before = self@;
        let r = self.create_with(who, reserved, dna);
        assert(create_outcome(before, who, reserved, drawn_dna(*env, who)) == create_outcome(
            before,
            who,
            reserved,
            dna@,
        ));
        r
    }

    /// `transfer`: the owner of `kitty_id` gives it to `new_owner`.
    pub fn transfer(&mut self, origin: Origin, new_owner: u64, kitty_id: u32) -> (r: Result<
        (),
        DispatchError,
    >)
        requires
            old(self)@.wf(),
        ensures
            final(self)@.wf(),
            match signer_of(origin) {
                None => r == Err::<(), DispatchError>(DispatchError::BadOrigin) && final(self)@
                    == old(self)@,
                Some(who) => final(self)@ == transfer_outcome(
                    old(self)@,
                    who,
                    new_owner,
                    kitty_id,
                ).0 && r == transfer_outcome(old(self)@, who, new_owner, kitty_id).1,
            },
    {
        let who = match ensure_signed(origin) {
            Ok(who) => who,
            Err(_) => return Err(DispatchError::BadOrigin),
        };
        match self.owner(kitty_id) {
            Some(owner) => {
                if owner != who {
                    return Err(DispatchError::Module(Error::NotOwner));
                }
            },
            None => return Err(DispatchError::Module(Error::NotOwner)),
        }
        self.transferred(who, new_owner, kitty_id);
        Ok(())
    }

    /// Breeds kitties `kitty_id1` and `kitty_id2` into a new kitty for `who`,
    /// given the random selector drawn.
    pub fn breed_with(
        &mut self,
        who: u64,
        kitty_id1: u32,
        kitty_id2: u32,
        selector: [u8; 16],
    ) -> (r: Result<(), DispatchError>)
        requires
            old(self)@.wf(),
        ensures
            final(self)@ == breed_outcome(old(self)@, who, kitty_id1, kitty_id2, selector@).0,
            r == breed_outcome(old(self)@, who, kitty_id1, kitty_id2, selector@).1,
            final(self)@.wf(),
    {
        if kitty_id1 == kitty_id2 {
            return Err(DispatchError::Module(Error::SameParentIndex));
        }
        let kitty1 = match self.kitties(kitty_id1) {
            Some(k) => k,
            None => return Err(DispatchError::Module(Error::InvalidKittyIndex)),
        };
        let kitty2 = match self.kitties(kitty_id2) {
            Some(k) => k,
            None => return Err(DispatchError::Module(Error::InvalidKittyIndex)),
        };
        let dna1 = kitty1.0;
        let dna2 = kitty2.0;
        let kitty_id = match self.new_ketty_id() {
            Ok(id) => id,
            Err(e) => return Err(DispatchError::Module(e)),
        };
        let mut new_dna = selector;
        for i in 0..16usize
            invariant
                forall|j: int|
                    0 <= j < i ==> new_dna@[j] == mixed_dna(selector@, dna1@, dna2@)[j],
        {
            new_dna[i] = (selector[i] & dna1[i]) | (!selector[i] & dna2[i]);
        }
        assert(new_dna@ =~= mixed_dna(selector@, dna1@, dna2@));
        self.created(who, kitty_id, Kitty(new_dna));
        Ok(())
    }

    /// `breed`: the signer breeds two existing kitties into a new kitty of
    /// their own, its DNA mixed from the parents' by a random selector.
    pub fn breed<T: Config>(
        &mut self,
        env: &T,
        origin: Origin,
        kitty_id1: u32,
        kitty_id2: u32,
    ) -> (r: Result<(), DispatchError>)
        requires
            old(self)@.wf(),
        ensures
            final(self)@.wf(),
            match signer_of(origin) {
                None => r == Err::<(), DispatchError>(DispatchError::BadOrigin) && final(self)@
                    == old(self)@,
                Some(who) => {
                    let outcome = breed_outcome(
                        old(self)@,
                        who,
                        kitty_id1,
                        kitty_id2,
                        drawn_dna(*env, who),
                    );
                    final(self)@ == outcome.0 && r == outcome.1
                },
            },
    {
        let who = match ensure_signed(origin) {
            Ok(who) => who,
            Err(_) => return Err(DispatchError::BadOrigin),
        };
        let selector = random_value(env, who);
        self.breed_with(who, kitty_id1, kitty_id2, selector)
    }

    /// `sell`: the owner of `kitty_id` sets its price; `None` takes it off sale.
    pub fn sell(&mut self, origin: Origin, kitty_id: u32, price: Option<u128>) -> (r: Result<
        (),
        DispatchError,
    >)
        requires
            old(self)@.wf(),
        ensures
            final(self)@.wf(),
            match signer_of(origin) {
                None => r == Err::<(), DispatchError>(DispatchError::BadOrigin) && final(self)@
                    == old(self)@,
                Some(who) => final(self)@ == sell_outcome(old(self)@, who, kitty_id, price).0
                    && r == sell_outcome(old(self)@, who, kitty_id, price).1,
            },
    {
        let who = match ensure_signed(origin) {
            Ok(who) => who,
            Err(_) => return Err(DispatchError::BadOrigin),
        };
        match self.owner(kitty_id) {
            Some(owner) => {
                if owner != who {
                    return Err(DispatchError::Module(Error::NotOwner));
                }
            },
            None => return Err(DispatchError::Module(Error::NotOwner)),
        }
        let ghost before = self@;
        self.on_sale.set(kitty_id as usize, price);
        self.events.push(Event::OnSale(who, kitty_id, price));
        assert(self@ =~= sell_outcome(before, who, kitty_id, price).0);
        Ok(())
    }

    /// Settles the purchase of `kitty_id` by `who`, given whether the price
    /// could be reserved from the buyer and what the transfer of the price to
    /// the owner returned.
    pub fn buy_with(
        &mut self,
        who: u64,
        kitty_id: u32,
        reserved: bool,
        transferred: Result<(), DispatchError>,
    ) -> (r: Result<(), DispatchError>)
        requires
            old(self)@.wf(),
        ensures
            final(self)@ == buy_outcome(old(self)@, who, kitty_id, reserved, transferred).0,
            r == buy_outcome(old(self)@, who, kitty_id, reserved, transferred).1,
            final(self)@.wf(),
    {
        let price = match self.on_sale(kitty_id) {
            Some(price) => price,
            None => return Err(DispatchError::Module(Error::NotForSale)),
        };
        let owner = self.owner[kitty_id as usize];
        if !reserved {
            return Err(DispatchError::Module(Error::NoEnoughBalance));
        }
        match transferred {
            Ok(()) => {},
            Err(e) => return Err(e),
        }
        let ghost before = self@;
        self.on_sale.set(kitty_id as usize, None);
        let ghost unlisted = self@;
        assert(unlisted =~= KittiesState { on_sale: before.on_sale.update(kitty_id as int, None), ..before });
        self.transferred(owner, who, kitty_id);
        self.events.push(Event::Sold(owner, who, kitty_id, price));
        assert(self@ =~= buy_outcome(before, who, kitty_id, reserved, transferred).0);
        Ok(())
    }

    /// `buy`: the signer buys a kitty that is on sale. The price is reserved
    /// from the buyer; if that succeeds, the owner's reserve of that amount is
    /// released and the price transferred from the buyer to the owner.
    pub fn buy<T: Config>(&mut self, env: &mut T, origin: Origin, kitty_id: u32) -> (r: Result<
        (),
        DispatchError,
    >)
        requires
            old(self)@.wf(),
        ensures
            final(self)@.wf(),
            signer_of(origin) is None ==> r == Err::<(), DispatchError>(DispatchError::BadOrigin)
                && final(self)@ == old(self)@ && final(env).currency_calls() == old(
                env,
            ).currency_calls(),
            forall|who: u64|
                signer_of(origin) == Some(who) ==> match old(self)@.price_of(kitty_id) {
                    None => r == Err::<(), DispatchError>(DispatchError::Module(Error::NotForSale))
                        && final(self)@ == old(self)@ && final(env).currency_calls() == old(
                        env,
                    ).currency_calls(),
                    Some(price) => {
                        let owner = old(self)@.owners[kitty_id as int];
                        exists|reserved: bool, transferred: Result<(), DispatchError>|
                            #![trigger buy_outcome(old(self)@, who, kitty_id, reserved, transferred)]
                            {
                                &&& final(self)@ == buy_outcome(
                                    old(self)@,
                                    who,
                                    kitty_id,
                                    reserved,
                                    transferred,
                                ).0
                                &&& r == buy_outcome(
                                    old(self)@,
                                    who,
                                    kitty_id,
                                    reserved,
                                    transferred,
                                ).1
                                &&& final(env).currency_calls() == if reserved {
                                    old(env).currency_calls().push(
                                        CurrencyCall::Reserve(who, price, true),
                                    ).push(CurrencyCall::Unreserve(owner, price)).push(
                                        CurrencyCall::Transfer(who, owner, price, transferred),
                                    )
                                } else {
                                    old(env).currency_calls().push(
                                        CurrencyCall::Reserve(who, price, false),
                                    )
                                }
                            }
                    },
                },
    {
        let who = match ensure_signed(origin) {
            Ok(who) => who,
            Err(_) => return Err(DispatchError::BadOrigin),
        };
        let ghost before = self@;
        let price = match self.on_sale(kitty_id) {
            Some(price) => price,
            None => {
                let r = self.buy_with(who, kitty_id, false, Ok(()));
                assert(buy_outcome(before, who, kitty_id, false, Ok(())).0 == self@);
                return r;
            },
        };
        let owner = self.owner[kitty_id as usize];
        let reserved = match env.reserve(who, price) {
            Ok(()) => true,
            Err(_) => false,
        };
        let transferred = if reserved {
            let _ = env.unreserve(owner, price);
            env.transfer(who, owner, price)
        } else {
            Ok(())
        };
        let r = self.buy_with(who, kitty_id, reserved, transferred);
        assert(buy_outcome(before, who, kitty_id, reserved, transferred).0 == self@);
        r
    }
}

} // verus!
