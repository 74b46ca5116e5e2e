//! What holds of the proof-of-existence pallet across its calls.
use vstd::prelude::*;

use crate::poe::{
    create_claim_outcome, move_claim_outcome, revoke_claim_outcome, EventView, PoeState,
};

verus! {

/// A claim can be created exactly when it fits the limit and no one holds it;
/// the creator then holds it since block `now`, and every other claim is as it was.
pub proof fn created_claim_is_held_by_its_creator(s: PoeState, who: u64, claim: Seq<u8>, now: u64)
    ensures
        create_claim_outcome(s, who, claim, now).1 is Ok <==> claim.len() <= s.string_limit
            && !s.proofs.contains_key(claim),
        create_claim_outcome(s, who, claim, now).1 is Ok ==> {
            let after = create_claim_outcome(s, who, claim, now).0.proofs;
            &&& after.contains_key(claim)
            &&& after[claim] == (who, now)
            &&& after.remove(claim) == s.proofs
        },
{
    if create_claim_outcome(s, who, claim, now).1 is Ok {
        assert(s.proofs.insert(claim, (who, now)).remove(claim) =~= s.proofs);
    }
}

/// Revoking a claim right after creating it gives back the claims as they were.
pub proof fn revoke_undoes_create(s: PoeState, who: u64, claim: Seq<u8>, now: u64)
    requires
        create_claim_outcome(s, who, claim, now).1 is Ok,
    ensures
        revoke_claim_outcome(create_claim_outcome(s, who, claim, now).0, who, claim).1 is Ok,
        revoke_claim_outcome(create_claim_outcome(s, who, claim, now).0, who, claim).0.proofs
            == s.proofs,
{
    assert(s.proofs.insert(claim, (who, now)).remove(claim) =~= s.proofs);
}

/// Only the holder of a claim can revoke or move it; moving hands it to the
/// recipient since block `now`, revoking leaves no holder, and no other claim changes.
pub proof fn only_the_holder_revokes_or_moves(
    s: PoeState,
    who: u64,
    claim: Seq<u8>,
    to: u64,
    now: u64,
)
    ensures
        revoke_claim_outcome(s, who, claim).1 is Ok <==> s.proofs.contains_key(claim)
            && s.proofs[claim].0 == who,
        move_claim_outcome(s, who, claim, to, now).1 is Ok <==> s.proofs.contains_key(claim)
            && s.proofs[claim].0 == who,
        revoke_claim_outcome(s, who, claim).1 is Ok ==> {
            let after = revoke_claim_outcome(s, who, claim).0.proofs;
            &&& !after.contains_key(claim)
            &&& after == s.proofs.remove(claim)
        },
        move_claim_outcome(s, who, claim, to, now).1 is Ok ==> {
            let after = move_claim_outcome(s, who, claim, to, now).0.proofs;
            &&& after.contains_key(claim)
            &&& after[claim] == (to, now)
            &&& after.remove(claim) == s.proofs.remove(claim)
        },
{
    if move_claim_outcome(s, who, claim, to, now).1 is Ok {
        assert(s.proofs.insert(claim, (to, now)).remove(claim) =~= s.proofs.remove(claim));
    }
}

/// A call that fails leaves the claims, the limit and the events as they were.
pub proof fn failed_claim_calls_change_nothing(
    s: PoeState,
    who: u64,
    claim: Seq<u8>,
    to: u64,
    now: u64,
)
    ensures
        create_claim_outcome(s, who, claim, now).1 is Err ==> create_claim_outcome(
            s,
            who,
            claim,
            now,
        ).0 == s,
        revoke_claim_outcome(s, who, claim).1 is Err ==> revoke_claim_outcome(s, who, claim).0
            == s,
        move_claim_outcome(s, who, claim, to, now).1 is Err ==> move_claim_outcome(
            s,
            who,
            claim,
            to,
            now,
        ).0 == s,
{
}

/// No call changes the claim length limit: it bounds each claim on its own,
/// however many claims are held.
pub proof fn claim_calls_keep_the_limit(s: PoeState, who: u64, claim: Seq<u8>, to: u64, now: u64)
    ensures
        create_claim_outcome(s, who, claim, now).0.string_limit == s.string_limit,
        revoke_claim_outcome(s, who, claim).0.string_limit == s.string_limit,
        move_claim_outcome(s, who, claim, to, now).0.string_limit == s.string_limit,
        claim.len() <= s.string_limit && !s.proofs.contains_key(claim) ==> create_claim_outcome(
            s,
            who,
            claim,
            now,
        ).1 is Ok,
{
}

/// Each successful call deposits its one event after the earlier ones.
pub proof fn claim_calls_deposit_their_event(
    s: PoeState,
    who: u64,
    claim: Seq<u8>,
    to: u64,
    now: u64,
)
    ensures
        create_claim_outcome(s, who, claim, now).1 is Ok ==> create_claim_outcome(
            s,
            who,
            claim,
            now,
        ).0.events == s.events.push(EventView::ClaimCreated(who, claim)),
        revoke_claim_outcome(s, who, claim).1 is Ok ==> revoke_claim_outcome(s, who, claim).0.events
            == s.events.push(EventView::ClaimRevoked(who, claim)),
        move_claim_outcome(s, who, claim, to, now).1 is Ok ==> move_claim_outcome(
            s,
            who,
            claim,
            to,
            now,
        ).0.events == s.events.push(EventView::ClaimMoved(who, claim, to)),
{
}

} // verus!
