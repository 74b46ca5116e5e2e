//! Who dispatches a call.
use vstd::prelude::*;

verus! {

/// The origin of a dispatched call.
#[derive(Clone, Copy, Debug, PartialEq, Eq)]
pub enum Origin {
    /// The root of the chain.
    Root,
    /// An account that signed the call.
    Signed(u64),
    /// No one: an unsigned call.
    Unsigned,
}

/// The error of a call whose origin is not a signed account.
#[derive(Clone, Copy, Debug, PartialEq, Eq)]
pub struct BadOrigin;

/// The account that signed `origin`, if any.
pub open spec fn signer_of(origin: Origin) -> Option<u64> {
    match origin {
        Origin::Signed(who) => Some(who),
        _ => None,
    }
}

/// The signer of a call, or `BadOrigin` where no account signed it.
pub fn ensure_signed(origin: Origin) -> (r: Result<u64, BadOrigin>)
    ensures
        match signer_of(origin) {
            Some(who) => r == Ok::<u64, BadOrigin>(who),
            None => r == Err::<u64, BadOrigin>(BadOrigin),
        },
{
    match origin {
        Origin::Signed(who) => Ok(who),
        _ => Err(BadOrigin),
    }
}

} // verus!
