use vstd::prelude::*;

verus! {

/// A fungible-asset holding account, as the protocol reads it: the identity of
/// the asset type it holds (its mint) and its balance.
///
/// Identities on the ledger — parties and asset types alike — are modelled as
/// plain `u64` values. Ownership and signature verification belong to the
/// storage substrate, which is outside the protocol; a transition trusts that
/// the accounts handed to it are the ones its caller named and signed for.
#[derive(Clone, Copy, PartialEq, Eq, Debug)]
pub struct TokenAccount {
    /// Identity of the asset type this account holds.
    pub mint: u64,
    /// Current balance.
    pub amount: u64,
}

/// The durable record of one escrow's terms. All fields are set exactly once,
/// at creation, and never reassigned; the offered asset's type is not stored
/// here because it is fixed by the paired vault's `mint`.
#[derive(Clone, Copy, PartialEq, Eq, Debug)]
pub struct Offer {
    /// Identity of the party who created the offer.
    pub initializer: u64,
    /// Quantity locked in custody at creation time.
    pub offered_amount: u64,
    /// Identity of the asset type demanded in return.
    pub wanted_token_mint: u64,
    /// Quantity of `wanted_token_mint` required to complete the swap.
    pub wanted_amount: u64,
}

/// One open escrow: the offer record together with its custody vault.
///
/// The vault's address is a pure function of the offer's address, so the two
/// are created and destroyed together; pairing them in one value models that
/// derivation — no two offers share a vault, and the vault of an offer is
/// exactly the one stored beside it. The vault's controlling authority is
/// derived from the offer's identity and has no external key: only the
/// protocol's own transitions can move its balance, which this crate models by
/// the vault living inside the `Escrow` value that only `accept_escrow` and
/// `cancel_escrow` consume.
#[derive(Clone, Copy, PartialEq, Eq, Debug)]
pub struct Escrow {
    /// The offer record.
    pub offer: Offer,
    /// The custody vault holding the offered asset.
    pub vault: TokenAccount,
}

impl Escrow {
    /// Custody conservation: while an offer is open its vault holds exactly
    /// `offered_amount` of the offered asset, and both declared quantities are
    /// positive. `initialize_escrow` establishes this and no transition ever
    /// mutates an open escrow, so it holds for the escrow's whole lifetime.
    pub open spec fn well_formed(self) -> bool {
        &&& self.vault.amount == self.offer.offered_amount
        &&& self.offer.offered_amount > 0
        &&& self.offer.wanted_amount > 0
    }
}

/// Invariant of a storage slot keyed by an initializer's identity: either the
/// slot is empty, or it holds a well-formed open escrow.
pub open spec fn slot_well_formed(slot: Option<Escrow>) -> bool {
    match slot {
        Some(e) => e.well_formed(),
        None => true,
    }
}

} // verus!
