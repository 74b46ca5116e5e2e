use std::collections::HashMap;

use substrate_course::kitties::{Config, DispatchError, Error, Event, Pallet};
use substrate_course::origin::Origin;

/// The creation deposit of the test runtime.
const MONEY_FOR_CREATE_KITTY: u128 = 1_000;

/// The least balance that keeps an account alive.
const EXISTENTIAL_DEPOSIT: u128 = 1;

/// A runtime for the tests: a currency with free and reserved balances,
/// and a randomness source that changes with each extrinsic.
struct Test {
    free: HashMap<u64, u128>,
    reserved: HashMap<u64, u128>,
    block: u64,
    extrinsic: u32,
}

impl Test {
    fn free(&self, who: u64) -> u128 {
        *self.free.get(&who).unwrap_or(&0)
    }

    fn reserved(&self, who: u64) -> u128 {
        *self.reserved.get(&who).unwrap_or(&0)
    }
}

impl Config for Test {
    fn money_for_create_kitty(&self) -> u128 {
        MONEY_FOR_CREATE_KITTY
    }

    fn reserve(&mut self, who: u64, amount: u128) -> Result<(), DispatchError> {
        let free = self.free(who);
        if free < amount {
            return Err(DispatchError::Currency(1));
        }
        self.free.insert(who, free - amount);
        let reserved = self.reserved(who);
        self.reserved.insert(who, reserved + amount);
        self.extrinsic += 1;
        Ok(())
    }

    fn unreserve(&mut self, who: u64, amount: u128) -> u128 {
        let reserved = self.reserved(who);
        let released = reserved.min(amount);
        self.reserved.insert(who, reserved - released);
        let free = self.free(who);
        self.free.insert(who, free + released);
        amount - released
    }

    fn transfer(&mut self, source: u64, dest: u64, amount: u128) -> Result<(), DispatchError> {
        let free = self.free(source);
        if free < amount + EXISTENTIAL_DEPOSIT {
            return Err(DispatchError::Currency(2));
        }
        self.free.insert(source, free - amount);
        let to = self.free(dest);
        self.free.insert(dest, to + amount);
        Ok(())
    }

    fn random_seed(&self) -> ([u8; 32], u64) {
        ([self.block as u8; 32], self.block)
    }

    fn extrinsic_index(&self) -> Option<u32> {
        Some(self.extrinsic)
    }
}

/// Accounts 1 and 2 hold 10_000 each, account 3 holds 500.
fn new_test_ext() -> (Pallet, Test) {
    let mut free = HashMap::new();
    free.insert(1, 10_000);
    free.insert(2, 10_000);
    free.insert(3, 500);
    (Pallet::new(), Test { free, reserved: HashMap::new(), block: 1, extrinsic: 0 })
}

#[test]
fn create_works() {
    let (mut kitties, mut env) = new_test_ext();
    assert_eq!(kitties.create(&mut env, Origin::Signed(1)), Ok(()));
    assert_eq!(kitties.kitties_count(), Some(1));
    assert_eq!(kitties.owner(0), Some(1));
    let expected_event = Event::KittyCreate(1, 0);
    assert_eq!(kitties.events().last(), Some(&expected_event));
    assert_eq!(env.reserved(1), MONEY_FOR_CREATE_KITTY);
}

#[test]
fn create_not_enough_balance() {
    let (mut kitties, mut env) = new_test_ext();
    let before = kitties.clone();
    assert_eq!(
        kitties.create(&mut env, Origin::Signed(3)),
        Err(DispatchError::Module(Error::NoEnoughBalance))
    );
    assert_eq!(kitties, before);
}

#[test]
fn transfer_works() {
    let (mut kitties, mut env) = new_test_ext();
    assert_eq!(kitties.create(&mut env, Origin::Signed(1)), Ok(()));
    assert_eq!(kitties.transfer(Origin::Signed(1), 2, 0), Ok(()));
    assert_eq!(kitties.owner(0), Some(2));
    let expected_event = Event::KittyTransfer(1, 2, 0);
    assert_eq!(kitties.events().last(), Some(&expected_event));
}

#[test]
fn transfer_when_not_owner() {
    let (mut kitties, mut env) = new_test_ext();
    assert_eq!(kitties.create(&mut env, Origin::Signed(1)), Ok(()));
    let before = kitties.clone();
    assert_eq!(
        kitties.transfer(Origin::Signed(2), 3, 0),
        Err(DispatchError::Module(Error::NotOwner))
    );
    assert_eq!(kitties, before);
}

#[test]
fn breed_works() {
    let (mut kitties, mut env) = new_test_ext();
    assert_eq!(kitties.create(&mut env, Origin::Signed(1)), Ok(()));
    assert_eq!(kitties.create(&mut env, Origin::Signed(2)), Ok(()));
    assert_eq!(kitties.breed(&env, Origin::Signed(1), 1, 0), Ok(()));
    assert_eq!(kitties.kitties_count(), Some(3));
    let expected_event = Event::KittyCreate(1, 2);
    assert_eq!(kitties.events().last(), Some(&expected_event));
}

#[test]
fn breed_when_invalid_kitty_index() {
    let (mut kitties, env) = new_test_ext();
    let before = kitties.clone();
    assert_eq!(
        kitties.breed(&env, Origin::Signed(1), 0, 3),
        Err(DispatchError::Module(Error::InvalidKittyIndex))
    );
    assert_eq!(kitties, before);
}

#[test]
fn breed_when_same_parent() {
    let (mut kitties, mut env) = new_test_ext();
    assert_eq!(kitties.create(&mut env, Origin::Signed(1)), Ok(()));
    let before = kitties.clone();
    assert_eq!(
        kitties.breed(&env, Origin::Signed(1), 0, 0),
        Err(DispatchError::Module(Error::SameParentIndex))
    );
    assert_eq!(kitties, before);
}

#[test]
fn sell_works() {
    let (mut kitties, mut env) = new_test_ext();
    assert_eq!(kitties.create(&mut env, Origin::Signed(1)), Ok(()));
    let price: u128 = 1_500;
    assert_eq!(kitties.sell(Origin::Signed(1), 0, Some(price)), Ok(()));
    assert_eq!(kitties.on_sale(0), Some(price));
    let expected_event = Event::OnSale(1, 0, Some(price));
    assert_eq!(kitties.events().last(), Some(&expected_event));
}

#[test]
fn sell_when_not_owner() {
    let (mut kitties, mut env) = new_test_ext();
    assert_eq!(kitties.create(&mut env, Origin::Signed(1)), Ok(()));
    let before = kitties.clone();
    assert_eq!(
        kitties.sell(Origin::Signed(3), 0, Some(1000)),
        Err(DispatchError::Module(Error::NotOwner))
    );
    assert_eq!(kitties, before);
}

#[test]
fn buy_works() {
    let (mut kitties, mut env) = new_test_ext();
    assert_eq!(kitties.create(&mut env, Origin::Signed(1)), Ok(()));
    let price: u128 = 1_500;
    assert_eq!(kitties.sell(Origin::Signed(1), 0, Some(price)), Ok(()));
    assert_eq!(kitties.buy(&mut env, Origin::Signed(2), 0), Ok(()));
    assert_eq!(kitties.owner(0), Some(2));
    let events = kitties.events();
    let expected_event = Event::KittyTransfer(1, 2, 0);
    assert_eq!(events[events.len() - 2], expected_event);
    let expected_event = Event::Sold(1, 2, 0, price);
    assert_eq!(events[events.len() - 1], expected_event);
    assert_eq!(kitties.on_sale(0), None);
}

#[test]
fn buy_when_not_for_sale() {
    let (mut kitties, mut env) = new_test_ext();
    assert_eq!(kitties.create(&mut env, Origin::Signed(1)), Ok(()));
    assert_eq!(kitties.sell(Origin::Signed(1), 0, None), Ok(()));
    let before = kitties.clone();
    assert_eq!(
        kitties.buy(&mut env, Origin::Signed(2), 0),
        Err(DispatchError::Module(Error::NotForSale))
    );
    assert_eq!(kitties, before);
}

#[test]
fn buy_when_no_enough_balance() {
    let (mut kitties, mut env) = new_test_ext();
    assert_eq!(kitties.create(&mut env, Origin::Signed(1)), Ok(()));
    assert_eq!(kitties.sell(Origin::Signed(1), 0, Some(2_500)), Ok(()));
    let before = kitties.clone();
    assert_eq!(
        kitties.buy(&mut env, Origin::Signed(3), 0),
        Err(DispatchError::Module(Error::NoEnoughBalance))
    );
    assert_eq!(kitties, before);
}
