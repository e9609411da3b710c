use vstd::prelude::*;

verus! {

use crate::error::EscrowError;
use crate::state::{Escrow, TokenAccount};
use crate::token;

/// Everything the cancel transition touches: the storage slot holding the open
/// escrow, the identity of the signing caller who claims to be the
/// initializer, and the initializer's holding account that takes the refund.
#[derive(Clone, Copy, PartialEq, Eq, Debug)]
pub struct CancelEscrow {
    /// The storage slot addressed by the caller; holds the open escrow, if
    /// any.
    pub offer: Option<Escrow>,
    /// Identity of the signing caller; must equal the record's `initializer`.
    pub initializer: u64,
    /// The account the vault's balance is returned to.
    pub initializers_offered_tokens_account: TokenAccount,
}

/// What the cancel transition does, as a function of its inputs: `Err` with
/// the first condition that fails — no open offer in the slot; the caller is
/// not the initializer; the refund account is not of the vault's asset type;
/// the refunded balance would overflow — and otherwise `Ok` with the vault's
/// whole balance returned and the slot emptied.
pub open spec fn cancel_outcome(pre: CancelEscrow) -> Result<CancelEscrow, EscrowError> {
    match pre.offer {
        None => Err(EscrowError::OfferNotFound),
        Some(esc) => if pre.initializer != esc.offer.initializer {
            Err(EscrowError::UnauthorizationError)
        } else if esc.vault.mint != pre.initializers_offered_tokens_account.mint {
            Err(EscrowError::MintError)
        } else if pre.initializers_offered_tokens_account.amount + esc.vault.amount > u64::MAX {
            Err(EscrowError::AmountOverflow)
        } else {
            Ok(
                CancelEscrow {
                    offer: None,
                    initializer: pre.initializer,
                    initializers_offered_tokens_account: TokenAccount {
                        mint: pre.initializers_offered_tokens_account.mint,
                        amount: (pre.initializers_offered_tokens_account.amount
                            + esc.vault.amount) as u64,
                    },
                },
            )
        },
    }
}

/// Withdraw an open offer: the caller must be the party who created it — the
/// sole access-control gate in the protocol — and then the vault's whole
/// balance goes back to the given holding account and the vault and record
/// are destroyed, one atomic step. On any failure the context is left exactly
/// as it was and the error says why.
///
/// The asset-type match between vault and refund account is the transfer
/// primitive's own refusal, surfaced unchanged; the vault's release is
/// authorized by its self-derived authority, which only this code path holds.
pub fn cancel_escrow(ctx: &mut CancelEscrow) -> (r: Result<(), EscrowError>)
    ensures
        match cancel_outcome(*old(ctx)) {
            Ok(post) => r == Ok::<(), EscrowError>(()) && *final(ctx) == post,
            Err(e) => r == Err::<(), EscrowError>(e) && *final(ctx) == *old(ctx),
        },
{
    let esc: Escrow = match ctx.offer {
        Some(e) => e,
        None => { return Err(EscrowError::OfferNotFound) },
    };
    if ctx.initializer != esc.offer.initializer {
        return Err(EscrowError::UnauthorizationError);
    }
    let mut vault = esc.vault;
    let vault_balance = vault.amount;
    let mut refund = ctx.initializers_offered_tokens_account;
    let moved = token::transfer(&mut vault, &mut refund, vault_balance);
    match moved {
        Ok(()) => {
            ctx.initializers_offered_tokens_account = refund;
            // The vault is now empty; closing it and destroying the record is
            // the slot's transition to empty.
            ctx.offer = None;
            Ok(())
        },
        Err(e) => {
            // The primitive refused and moved nothing, so the escrow stays
            // open and the context is unchanged.
            Err(e)
        },
    }
}

} // verus!
