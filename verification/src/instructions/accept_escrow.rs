use vstd::prelude::*;

verus! {

use crate::error::EscrowError;
use crate::state::{Escrow, TokenAccount};
use crate::token;

/// Everything the accept transition touches: the storage slot holding the
/// open escrow (record and custody vault travel together, since the vault's
/// address derives from the offer's), the identity supplied as the offer's
/// initializer, the taker's identity (the signing caller, who consents to pay
/// by signing), the three holding accounts the swap moves value between, and
/// the identity of the wanted asset type as supplied by the caller.
#[derive(Clone, Copy, PartialEq, Eq, Debug)]
pub struct AcceptEscrow {
    /// The storage slot addressed by the caller; holds the open escrow, if
    /// any.
    pub offer: Option<Escrow>,
    /// Identity supplied as the party who created the offer; must equal the
    /// record's `initializer`.
    pub initializer: u64,
    /// Identity of the signing caller.
    pub taker: u64,
    /// The initializer's account that receives the wanted-asset payment.
    pub initializers_wanted_token_account: TokenAccount,
    /// The taker's account that pays the wanted asset.
    pub taker_wanted_token_account: TokenAccount,
    /// The taker's account that receives the offered asset held in custody.
    pub takers_offered_tokens_account: TokenAccount,
    /// Identity of the wanted asset type, as supplied; must equal the record's
    /// `wanted_token_mint`.
    pub wanted_token_mint: u64,
}

/// What the accept transition does, as a function of its inputs: `Err` with
/// the first condition that fails — no open offer in the slot; the supplied
/// initializer identity is not the record's; any of the asset-type constraints
/// is violated; the taker cannot pay; a credited balance would overflow — and
/// otherwise `Ok` with the two-sided exchange performed and the slot emptied.
/// The taker pays first: a failing payment leaves custody untouched.
pub open spec fn accept_outcome(pre: AcceptEscrow) -> Result<AcceptEscrow, EscrowError> {
    match pre.offer {
        None => Err(EscrowError::OfferNotFound),
        Some(esc) => if pre.initializer != esc.offer.initializer {
            Err(EscrowError::UnauthorizationError)
        } else if pre.initializers_wanted_token_account.mint != pre.wanted_token_mint {
            Err(EscrowError::MintError)
        } else if pre.taker_wanted_token_account.mint != esc.offer.wanted_token_mint {
            Err(EscrowError::MintError)
        } else if pre.takers_offered_tokens_account.mint != esc.vault.mint {
            Err(EscrowError::MintError)
        } else if pre.wanted_token_mint != esc.offer.wanted_token_mint {
            Err(EscrowError::MintError)
        } else if pre.taker_wanted_token_account.amount < esc.offer.wanted_amount {
            Err(EscrowError::InsufficientFunds)
        } else if pre.initializers_wanted_token_account.amount + esc.offer.wanted_amount
            > u64::MAX {
            Err(EscrowError::AmountOverflow)
        } else if pre.takers_offered_tokens_account.amount + esc.vault.amount > u64::MAX {
            Err(EscrowError::AmountOverflow)
        } else {
            Ok(
                AcceptEscrow {
                    offer: None,
                    initializer: pre.initializer,
                    taker: pre.taker,
                    initializers_wanted_token_account: TokenAccount {
                        mint: pre.initializers_wanted_token_account.mint,
                        amount: (pre.initializers_wanted_token_account.amount
                            + esc.offer.wanted_amount) as u64,
                    },
                    taker_wanted_token_account: TokenAccount {
                        mint: pre.taker_wanted_token_account.mint,
                        amount: (pre.taker_wanted_token_account.amount
                            - esc.offer.wanted_amount) as u64,
                    },
                    takers_offered_tokens_account: TokenAccount {
                        mint: pre.takers_offered_tokens_account.mint,
                        amount: (pre.takers_offered_tokens_account.amount + esc.vault.amount)
                            as u64,
                    },
                    wanted_token_mint: pre.wanted_token_mint,
                },
            )
        },
    }
}

/// Complete the swap: the taker pays `wanted_amount` of the wanted asset to
/// the initializer, the vault releases its whole balance to the taker, and the
/// now-empty vault and the record are destroyed — one atomic step. On any
/// failure the context is left exactly as it was and the error says why.
///
/// The taker's payment is ordered before the vault's release, so a payment
/// that cannot complete never lets custody go; the vault's release is
/// authorized by its self-derived authority, which only this code path holds.
pub fn accept_escrow(ctx: &mut AcceptEscrow) -> (r: Result<(), EscrowError>)
    ensures
        match accept_outcome(*old(ctx)) {
            Ok(post) => r == Ok::<(), EscrowError>(()) && *final(ctx) == post,
            Err(e) => r == Err::<(), EscrowError>(e) && *final(ctx) == *old(ctx),
        },
{
    let esc: Escrow = match ctx.offer {
        Some(e) => e,
        None => { return Err(EscrowError::OfferNotFound) },
    };
    if ctx.initializer != esc.offer.initializer {
        return Err(EscrowError::UnauthorizationError);
    }
    if ctx.initializers_wanted_token_account.mint != ctx.wanted_token_mint {
        return Err(EscrowError::MintError);
    }
    if ctx.taker_wanted_token_account.mint != esc.offer.wanted_token_mint {
        return Err(EscrowError::MintError);
    }
    if ctx.takers_offered_tokens_account.mint != esc.vault.mint {
        return Err(EscrowError::MintError);
    }
    if ctx.wanted_token_mint != esc.offer.wanted_token_mint {
        return Err(EscrowError::MintError);
    }
    if ctx.taker_wanted_token_account.amount < esc.offer.wanted_amount {
        return Err(EscrowError::InsufficientFunds);
    }
    if esc.offer.wanted_amount > u64::MAX - ctx.initializers_wanted_token_account.amount {
        return Err(EscrowError::AmountOverflow);
    }
    if esc.vault.amount > u64::MAX - ctx.takers_offered_tokens_account.amount {
        return Err(EscrowError::AmountOverflow);
    }
    // The checks above make both transfers succeed, so the whole exchange is
    // all-or-nothing even though it runs as two debits and credits.
    let mut taker_pays = ctx.taker_wanted_token_account;
    let mut initializer_receives = ctx.initializers_wanted_token_account;
    let _ = token::transfer(&mut taker_pays, &mut initializer_receives, esc.offer.wanted_amount);
    let mut vault = esc.vault;
    let vault_balance = vault.amount;
    let mut taker_receives = ctx.takers_offered_tokens_account;
    let _ = token::transfer(&mut vault, &mut taker_receives, vault_balance);
    ctx.taker_wanted_token_account = taker_pays;
    ctx.initializers_wanted_token_account = initializer_receives;
    ctx.takers_offered_tokens_account = taker_receives;
    // The vault is now empty; closing it and destroying the record is the
    // slot's transition to empty.
    ctx.offer = None;
    Ok(())
}

} // verus!
