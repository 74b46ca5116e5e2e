//! The proof-of-existence pallet: an account claims a piece of data (a hash,
//! say), and the chain records who holds the claim and since which block.
use vstd::prelude::*;

use crate::origin::{ensure_signed, signer_of, Origin};

verus! {

/// The errors of the proof-of-existence pallet.
#[derive(Clone, Copy, Debug, PartialEq, Eq)]
pub enum Error {
    /// The claim is held already.
    ProofAlreadyExist,
    /// No one holds the claim.
    ClaimNotExist,
    /// The caller does not hold the claim.
    NotClaimOwner,
    /// The claim is longer than the pallet's limit.
    BadMetadata,
}

/// Why a dispatched call failed.
#[derive(Clone, Copy, Debug, PartialEq, Eq)]
pub enum DispatchError {
    /// The call was not signed by an account.
    BadOrigin,
    /// An error of this pallet.
    Module(Error),
}

/// The events that the pallet deposits.
#[derive(Clone, Debug, PartialEq, Eq)]
pub enum Event {
    /// A claim was created: (owner, claim).
    ClaimCreated(u64, Vec<u8>),
    /// A claim was revoked: (owner, claim).
    ClaimRevoked(u64, Vec<u8>),
    /// A claim was moved: (from, claim, to).
    ClaimMoved(u64, Vec<u8>, u64),
}

/// An event as plain values.
pub enum EventView {
    ClaimCreated(u64, Seq<u8>),
    ClaimRevoked(u64, Seq<u8>),
    ClaimMoved(u64, Seq<u8>, u64),
}

impl View for Event {
    type V = EventView;

    open spec fn view(&self) -> EventView {
        match self {
            Event::ClaimCreated(who, claim) => EventView::ClaimCreated(*who, claim@),
            Event::ClaimRevoked(who, claim) => EventView::ClaimRevoked(*who, claim@),
            Event::ClaimMoved(who, claim, to) => EventView::ClaimMoved(*who, claim@, *to),
        }
    }
}

/// The pallet's storage as plain values.
#[verifier::ext_equal]
pub struct PoeState {
    /// `Proofs`: for each claim, its owner and the block where it was made or moved.
    pub proofs: Map<Seq<u8>, (u64, u64)>,
    /// The longest claim that can be created.
    pub string_limit: u32,
    /// The events deposited so far.
    pub events: Seq<EventView>,
}

/// What `create_claim` does once `who` is known to have signed, at block `now`.
pub open spec fn create_claim_outcome(s: PoeState, who: u64, claim: Seq<u8>, now: u64) -> (
    PoeState,
    Result<(), DispatchError>,
) {
    if claim.len() > s.string_limit {
        (s, Err(DispatchError::Module(Error::BadMetadata)))
    } else if s.proofs.contains_key(claim) {
        (s, Err(DispatchError::Module(Error::ProofAlreadyExist)))
    } else {
        (
            PoeState {
                proofs: s.proofs.insert(claim, (who, now)),
                events: s.events.push(EventView::ClaimCreated(who, claim)),
                ..s
            },
            Ok(()),
        )
    }
}

/// What `revoke_claim` does once `who` is known to have signed.
pub open spec fn revoke_claim_outcome(s: PoeState, who: u64, claim: Seq<u8>) -> (
    PoeState,
    Result<(), DispatchError>,
) {
    if !s.proofs.contains_key(claim) {
        (s, Err(DispatchError::Module(Error::ClaimNotExist)))
    } else if s.proofs[claim].0 != who {
        (s, Err(DispatchError::Module(Error::NotClaimOwner)))
    } else {
        (
            PoeState {
                proofs: s.proofs.remove(claim),
                events: s.events.push(EventView::ClaimRevoked(who, claim)),
                ..s
            },
            Ok(()),
        )
    }
}

/// What `move_claim` does once `who` is known to have signed, at block `now`.
pub open spec fn move_claim_outcome(s: PoeState, who: u64, claim: Seq<u8>, to: u64, now: u64) -> (
    PoeState,
    Result<(), DispatchError>,
) {
    if !s.proofs.contains_key(claim) {
        (s, Err(DispatchError::Module(Error::ClaimNotExist)))
    } else if s.proofs[claim].0 != who {
        (s, Err(DispatchError::Module(Error::NotClaimOwner)))
    } else {
        (
            PoeState {
                proofs: s.proofs.insert(claim, (to, now)),
                events: s.events.push(EventView::ClaimMoved(who, claim, to)),
                ..s
            },
            Ok(()),
        )
    }
}

/// A stored claim.
#[derive(Clone, Debug, PartialEq, Eq)]
struct Claimed {
    claim: Vec<u8>,
    owner: u64,
    block_number: u64,
}

/// A stored claim as plain values.
spec fn claimed_view(c: Claimed) -> (Seq<u8>, u64, u64) {
    (c.claim@, c.owner, c.block_number)
}

/// The map that a list of stored claims stands for, the later entry winning.
spec fn claims_map(entries: Seq<(Seq<u8>, u64, u64)>) -> Map<Seq<u8>, (u64, u64)>
    decreases entries.len(),
{
    if entries.len() == 0 {
        Map::empty()
    } else {
        let last = entries.last();
        claims_map(entries.drop_last()).insert(last.0, (last.1, last.2))
    }
}

/// No claim is stored twice.
spec fn unique_claims(entries: Seq<(Seq<u8>, u64, u64)>) -> bool {
    forall|i: int, j: int|
        0 <= i < entries.len() && 0 <= j < entries.len() && i != j ==> #[trigger] entries[i].0
            != #[trigger] entries[j].0
}

proof fn lemma_claims_map_has(entries: Seq<(Seq<u8>, u64, u64)>, i: int)
    requires
        unique_claims(entries),
        0 <= i < entries.len(),
    ensures
        claims_map(entries).contains_key(entries[i].0),
        claims_map(entries)[entries[i].0] == (entries[i].1, entries[i].2),
    decreases entries.len(),
{
    if i < entries.len() - 1 {
        let rest = entries.drop_last();
        assert(rest[i] == entries[i]);
        assert(unique_claims(rest)) by {
            assert forall|a: int, b: int|
                0 <= a < rest.len() && 0 <= b < rest.len() && a != b implies #[trigger] rest[a].0
                != #[trigger] rest[b].0 by {
                assert(rest[a] == entries[a] && rest[b] == entries[b]);
            }
        }
        lemma_claims_map_has(rest, i);
        assert(entries[entries.len() - 1].0 != entries[i].0);
    }
}

proof fn lemma_claims_map_find(entries: Seq<(Seq<u8>, u64, u64)>, claim: Seq<u8>) -> (i: int)
    requires
        claims_map(entries).contains_key(claim),
    ensures
        0 <= i < entries.len(),
        entries[i].0 == claim,
    decreases entries.len(),
{
    if entries.last().0 == claim {
        entries.len() - 1
    } else {
        let rest = entries.drop_last();
        let j = lemma_claims_map_find(rest, claim);
        assert(rest[j] == entries[j]);
        j
    }
}

proof fn lemma_claims_map_absent(entries: Seq<(Seq<u8>, u64, u64)>, claim: Seq<u8>)
    requires
        forall|i: int| 0 <= i < entries.len() ==> (#[trigger] entries[i]).0 != claim,
    ensures
        !claims_map(entries).contains_key(claim),
{
    if claims_map(entries).contains_key(claim) {
        let i = lemma_claims_map_find(entries, claim);
        assert(entries[i].0 != claim);
    }
}

proof fn lemma_claims_map_push(entries: Seq<(Seq<u8>, u64, u64)>, e: (Seq<u8>, u64, u64))
    requires
        unique_claims(entries),
        !claims_map(entries).contains_key(e.0),
    ensures
        unique_claims(entries.push(e)),
        claims_map(entries.push(e)) == claims_map(entries).insert(e.0, (e.1, e.2)),
{
    let pushed = entries.push(e);
    assert(pushed.drop_last() =~= entries);
    assert forall|a: int, b: int|
        0 <= a < pushed.len() && 0 <= b < pushed.len() && a != b implies #[trigger] pushed[a].0
        != #[trigger] pushed[b].0 by {
        if a == entries.len() {
            lemma_claims_map_has(entries, b);
        } else if b == entries.len() {
            lemma_claims_map_has(entries, a);
        }
    }
}

proof fn lemma_claims_map_update(entries: Seq<(Seq<u8>, u64, u64)>, i: int, owner: u64, block: u64)
    requires
        unique_claims(entries),
        0 <= i < entries.len(),
    ensures
        unique_claims(entries.update(i, (entries[i].0, owner, block))),
        claims_map(entries.update(i, (entries[i].0, owner, block))) == claims_map(entries).insert(
            entries[i].0,
            (owner, block),
        ),
{
    let claim = entries[i].0;
    let updated = entries.update(i, (claim, owner, block));
    assert(unique_claims(updated)) by {
        assert forall|a: int, b: int|
            0 <= a < updated.len() && 0 <= b < updated.len() && a != b implies #[trigger] updated[a].0
            != #[trigger] updated[b].0 by {
            assert(updated[a].0 == entries[a].0 && updated[b].0 == entries[b].0);
        }
    }
    let m1 = claims_map(updated);
    let m2 = claims_map(entries).insert(claim, (owner, block));
    assert forall|k: Seq<u8>| #[trigger] m1.contains_key(k) implies m2.contains_key(k) && m1[k]
        == m2[k] by {
        let j = lemma_claims_map_find(updated, k);
        lemma_claims_map_has(updated, j);
        if j != i {
            lemma_claims_map_has(entries, j);
        }
    }
    assert forall|k: Seq<u8>| #[trigger] m2.contains_key(k) implies m1.contains_key(k) by {
        if k == claim {
            lemma_claims_map_has(updated, i);
        } else {
            let j = lemma_claims_map_find(entries, k);
            lemma_claims_map_has(updated, j);
        }
    }
    assert(m1 =~= m2);
}

proof fn lemma_claims_map_remove(entries: Seq<(Seq<u8>, u64, u64)>, i: int)
    requires
        unique_claims(entries),
        0 <= i < entries.len(),
    ensures
        unique_claims(entries.remove(i)),
        claims_map(entries.remove(i)) == claims_map(entries).remove(entries[i].0),
{
    let claim = entries[i].0;
    let removed = entries.remove(i);
    assert forall|a: int| 0 <= a < removed.len() implies #[trigger] removed[a] == entries[if a < i {
        a
    } else {
        a + 1
    }] by {}
    assert(unique_claims(removed)) by {
        assert forall|a: int, b: int|
            0 <= a < removed.len() && 0 <= b < removed.len() && a != b implies #[trigger] removed[a].0
            != #[trigger] removed[b].0 by {
            assert(removed[a] == entries[if a < i {
                a
            } else {
                a + 1
            }]);
            assert(removed[b] == entries[if b < i {
                b
            } else {
                b + 1
            }]);
        }
    }
    let m1 = claims_map(removed);
    let m2 = claims_map(entries).remove(claim);
    assert forall|k: Seq<u8>| #[trigger] m1.contains_key(k) implies m2.contains_key(k) && m1[k]
        == m2[k] by {
        let j = lemma_claims_map_find(removed, k);
        lemma_claims_map_has(removed, j);
        let jj = if j < i {
            j
        } else {
            j + 1
        };
        assert(removed[j] == entries[jj]);
        lemma_claims_map_has(entries, jj);
    }
    assert forall|k: Seq<u8>| #[trigger] m2.contains_key(k) implies m1.contains_key(k) by {
        let j = lemma_claims_map_find(entries, k);
        assert(j != i);
        let jj = if j < i {
            j
        } else {
            j - 1
        };
        assert(removed[jj] == entries[j]);
        lemma_claims_map_has(removed, jj);
    }
    assert(m1 =~= m2);
}

/// Whether two byte strings are equal.
fn bytes_equal(a: &Vec<u8>, b: &Vec<u8>) -> (equal: bool)
    ensures
        equal == (a@ == b@),
{
    if a.len() != b.len() {
        return false;
    }
    let mut i: usize = 0;
    while i < a.len()
        invariant
            a.len() == b.len(),
            i <= a.len(),
            forall|j: int| 0 <= j < i ==> a@[j] == b@[j],
        decreases a.len() - i,
    {
        if a[i] != b[i] {
            return false;
        }
        i = i + 1;
    }
    assert(a@ =~= b@);
    true
}

/// The storage of the proof-of-existence pallet.
#[derive(Clone, Debug, PartialEq, Eq)]
pub struct Poe {
    proofs: Vec<Claimed>,
    string_limit: u32,
    events: Vec<Event>,
}

impl Poe {
    spec fn entries(&self) -> Seq<(Seq<u8>, u64, u64)> {
        self.proofs@.map_values(|c: Claimed| claimed_view(c))
    }

    /// The invariant of the storage: no claim is stored twice.
    pub closed spec fn wf(&self) -> bool {
        unique_claims(self.entries())
    }
}

impl View for Poe {
    type V = PoeState;

    closed spec fn view(&self) -> PoeState {
        PoeState {
            proofs: claims_map(self.entries()),
            string_limit: self.string_limit,
            events: self.events@.map_values(|e: Event| e@),
        }
    }
}

impl Poe {
    /// The storage before any call, for claims of at most `string_limit` bytes.
    pub fn new(string_limit: u32) -> (poe: Poe)
        ensures
            poe.wf(),
            poe@.proofs == Map::<Seq<u8>, (u64, u64)>::empty(),
            poe@.string_limit == string_limit,
            poe@.events == Seq::<EventView>::empty(),
    {
        let poe = Poe { proofs: Vec::new(), string_limit, events: Vec::new() };
        assert(poe.entries() =~= Seq::empty());
        assert(poe@.events =~= Seq::empty());
        poe
    }

    /// `Proofs::get(claim)`: the owner of `claim` and the block of its last change.
    pub fn proofs(&self, claim: &Vec<u8>) -> (entry: Option<(u64, u64)>)
        requires
            self.wf(),
        ensures
            entry == (if self@.proofs.contains_key(claim@) {
                Some(self@.proofs[claim@])
            } else {
                None
            }),
    {
        match self.find(claim) {
            Some(i) => {
                proof {
                    lemma_claims_map_has(self.entries(), i as int);
                }
                Some((self.proofs[i].owner, self.proofs[i].block_number))
            },
            None => None,
        }
    }

    /// The events deposited so far, oldest first.
    pub fn events(&self) -> (events: &Vec<Event>)
        ensures
            events@.map_values(|e: Event| e@) == self@.events,
    {
        &self.events
    }

    /// The position of `claim` in the stored list.
    fn find(&self, claim: &Vec<u8>) -> (found: Option<usize>)
        requires
            self.wf(),
        ensures
            match found {
                Some(i) => i < self.proofs@.len() && self.entries()[i as int].0 == claim@,
                None => !self@.proofs.contains_key(claim@),
            },
    {
        let mut i: usize = 0;
        while i < self.proofs.len()
            invariant
                i <= self.proofs@.len(),
                forall|j: int| 0 <= j < i ==> (#[trigger] self.entries()[j]).0 != claim@,
            decreases self.proofs@.len() - i,
        {
            if bytes_equal(&self.proofs[i].claim, claim) {
                return Some(i);
            }
            i = i + 1;
        }
        proof {
            lemma_claims_map_absent(self.entries(), claim@);
        }
        None
    }
}

/// `create_claim`: the signer claims `claim` at block `now`, if it is short
/// enough and no one holds it.
pub fn create_claim(poe: &mut Poe, origin: Origin, claim: Vec<u8>, now: u64) -> (r: Result<
    (),
    DispatchError,
>)
    requires
        old(poe).wf(),
    ensures
        final(poe).wf(),
        match signer_of(origin) {
            None => r == Err::<(), DispatchError>(DispatchError::BadOrigin) && final(poe)@ == old(
                poe,
            )@,
            Some(who) => final(poe)@ == create_claim_outcome(old(poe)@, who, claim@, now).0 && r
                == create_claim_outcome(old(poe)@, who, claim@, now).1,
        },
{
    let who = match ensure_signed(origin) {
        Ok(who) => who,
        Err(_) => return Err(DispatchError::BadOrigin),
    };
    if claim.len() > poe.string_limit as usize {
        return Err(DispatchError::Module(Error::BadMetadata));
    }
    match poe.find(&claim) {
        Some(i) => {
            proof {
                lemma_claims_map_has(poe.entries(), i as int);
            }
            return Err(DispatchError::Module(Error::ProofAlreadyExist));
        },
        None => {},
    }
    let ghost before = poe@;
    let ghost entries = poe.entries();
    let event_claim = claim.clone();
    let entry = Claimed { claim, owner: who, block_number: now };
    poe.proofs.push(entry);
    poe.events.push(Event::ClaimCreated(who, event_claim));
    proof {
        assert(poe.entries() =~= entries.push(claimed_view(entry)));
        lemma_claims_map_push(entries, claimed_view(entry));
        assert(poe@ =~= create_claim_outcome(before, who, claimed_view(entry).0, now).0);
    }
    Ok(())
}

/// `revoke_claim`: the holder of `claim` gives it up.
pub fn revoke_claim(poe: &mut Poe, origin: Origin, claim: Vec<u8>) -> (r: Result<(), DispatchError>)
    requires
        old(poe).wf(),
    ensures
        final(poe).wf(),
        match signer_of(origin) {
            None => r == Err::<(), DispatchError>(DispatchError::BadOrigin) && final(poe)@ == old(
                poe,
            )@,
            Some(who) => final(poe)@ == revoke_claim_outcome(old(poe)@, who, claim@).0 && r
                == revoke_claim_outcome(old(poe)@, who, claim@).1,
        },
{
    let who = match ensure_signed(origin) {
        Ok(who) => who,
        Err(_) => return Err(DispatchError::BadOrigin),
    };
    let i = match poe.find(&claim) {
        Some(i) => i,
        None => return Err(DispatchError::Module(Error::ClaimNotExist)),
    };
    proof {
        lemma_claims_map_has(poe.entries(), i as int);
    }
    if poe.proofs[i].owner != who {
        return Err(DispatchError::Module(Error::NotClaimOwner));
    }
    let ghost before = poe@;
    let ghost entries = poe.entries();
    poe.proofs.remove(i);
    poe.events.push(Event::ClaimRevoked(who, claim));
    proof {
        assert(poe.entries() =~= entries.remove(i as int));
        lemma_claims_map_remove(entries, i as int);
        assert(poe@ =~= revoke_claim_outcome(before, who, claim@).0);
    }
    Ok(())
}

/// `move_claim`: the holder of `claim` hands it to `to`, recorded at block `now`.
pub fn move_claim(poe: &mut Poe, origin: Origin, claim: Vec<u8>, to: u64, now: u64) -> (r: Result<
    (),
    DispatchError,
>)
    requires
        old(poe).wf(),
    ensures
        final(poe).wf(),
        match signer_of(origin) {
            None => r == Err::<(), DispatchError>(DispatchError::BadOrigin) && final(poe)@ == old(
                poe,
            )@,
            Some(who) => final(poe)@ == move_claim_outcome(old(poe)@, who, claim@, to, now).0 && r
                == move_claim_outcome(old(poe)@, who, claim@, to, now).1,
        },
{
    let sender = match ensure_signed(origin) {
        Ok(who) => who,
        Err(_) => return Err(DispatchError::BadOrigin),
    };
    let i = match poe.find(&claim) {
        Some(i) => i,
        None => return Err(DispatchError::Module(Error::ClaimNotExist)),
    };
    proof {
        lemma_claims_map_has(poe.entries(), i as int);
    }
    if poe.proofs[i].owner != sender {
        return Err(DispatchError::Module(Error::NotClaimOwner));
    }
    let ghost before = poe@;
    let ghost entries = poe.entries();
    let stored_claim = poe.proofs[i].claim.clone();
    let entry = Claimed { claim: stored_claim, owner: to, block_number: now };
    poe.proofs.set(i, entry);
    poe.events.push(Event::ClaimMoved(sender, claim, to));
    proof {
        assert(poe.entries() =~= entries.update(i as int, (entries[i as int].0, to, now)));
        lemma_claims_map_update(entries, i as int, to, now);
        assert(poe@ =~= move_claim_outcome(before, sender, claim@, to, now).0);
    }
    Ok(())
}

} // verus!
