use vstd::prelude::*;

verus! {

/// Every way a transition attempt can fail.
///
/// `MintError` and `UnauthorizationError` are the protocol's own taxonomy: an
/// asset-type constraint between a supplied account and the expected type was
/// violated, or the caller is not the party entitled to perform the action.
/// The remaining variants surface conditions that the storage substrate or the
/// fungible-asset transfer primitive reports: a short balance, a balance that
/// would exceed the representable range, a transition addressed to a slot that
/// holds no open offer, and an initialize addressed to a slot that already
/// holds one. Every error is terminal for that transition attempt: the whole
/// transition aborts with no side effects.
#[derive(Clone, Copy, PartialEq, Eq, Debug)]
pub enum EscrowError {
    /// An account's asset type does not match the type the transition expects.
    MintError,
    /// The caller is not the party entitled to perform the action.
    UnauthorizationError,
    /// The debited account holds less than the amount to move.
    InsufficientFunds,
    /// The credited account's balance would exceed `u64::MAX`.
    AmountOverflow,
    /// The addressed slot holds no open offer (already accepted or cancelled).
    OfferNotFound,
    /// The addressed slot already holds an open offer.
    OfferAlreadyOpen,
}

} // verus!
